pub mod command;
pub mod fonts;
pub mod launch;
pub mod linux;
pub mod strmap;
pub mod text;
pub mod user;
pub mod xinput;
