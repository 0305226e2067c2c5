//! The adapters behind the command surface, one module per upstream service.

pub mod baidu_translate;
pub mod github;
pub mod http;
pub mod proxy;
