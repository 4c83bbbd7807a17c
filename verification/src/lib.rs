mod args;
mod config;
mod errors;
mod json;
mod request;
mod response;

pub use args::DisplayMode;
pub use args::enough_args;
pub use args::resolve_interactive;
pub use args::resolve_piped;
pub use args::spec_required_argc;
pub use args::spec_usage;
pub use args::usage_message;
pub use config::parse_auth_key;
pub use config::spec_config_key;
pub use config::table_strs;
pub use config::toml_doc_strs;
pub use errors::TranslateError;
pub use errors::lemma_remote_message_shows_body;
pub use errors::spec_message;
pub use json::JsonRep;
pub use json::json_rep;
pub use json::json_rep_of;
pub use request::TranslationRequest;
pub use request::auth_header_value;
pub use request::lemma_optional_fields_omitted;
pub use request::spec_auth_header;
pub use request::spec_form_fields;
pub use response::Translation;
pub use response::handle_response;
pub use response::lemma_rendered_append;
pub use response::parse_answer;
pub use response::render;
pub use response::spec_answer;
pub use response::spec_entries;
pub use response::spec_entry;
pub use response::spec_parsed_answer;
pub use response::spec_rendered;
pub use response::spec_rendered_one;
pub use response::spec_status_success;
pub use response::status_success;
