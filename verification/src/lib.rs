pub mod answer;
pub mod cluster;
pub mod codec;
pub mod command;
pub mod command_laws;
pub mod decimal;
pub mod error;
#[allow(non_snake_case)]
pub mod exports;
pub mod helper;
pub mod helper_laws;
pub mod json;
pub mod kubeconfig;
pub mod names;
pub mod operation_laws;
pub mod plan;
pub mod quantity;
pub mod reply_laws;
pub mod resource;
pub mod resource_laws;
pub mod rule_laws;
pub mod selector;
pub mod selector_laws;
pub mod selector_list_laws;
pub mod selector_notation_laws;
pub mod session;
pub mod session_laws;
pub mod text;
pub mod text_laws;
