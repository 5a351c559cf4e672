pub mod alibaba;
pub mod baidu;
pub mod caiyun;
pub mod digest;
pub mod error;
pub mod factory;
pub mod language;
pub mod mymemory;
pub mod output;
pub mod text;
pub mod youdao;
