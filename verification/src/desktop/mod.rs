pub mod audit;
pub mod evidence;
pub mod fingerprint;
pub mod providers;
pub mod pages;
pub mod profile_batch;
pub mod profile_edit;
pub mod profile_page;
pub mod proxy;
pub mod proxy_batch;
pub mod proxy_page;
pub mod release;
pub mod report;
pub mod report_json;
pub mod run_detail;
pub mod session_bundle;
pub mod stored_json;
pub mod settings;
pub mod task_control;
pub mod task_list;
pub mod template_edit;
pub mod template_meta;
pub mod template_run;
pub mod types;
pub mod workspace;
pub mod workbench;
