use kuma_agent::autostart::{installed_exe_path, plan_autostart, AutostartPlan};
use kuma_agent::settings::{classify_page_message, post_message_script, PageRequest};

#[test]
fn script_escapes_backslashes_and_quotes() {
    assert_eq!(
        post_message_script(r#"{"type":"config","data":{"name":"Bob's \"AP\""}}"#),
        r#"window.postMessage('{"type":"config","data":{"name":"Bob\'s \\"AP\\""}}', '*')"#
    );
    assert_eq!(post_message_script(""), "window.postMessage('', '*')");
}

#[test]
fn page_messages() {
    assert_eq!(classify_page_message("request_config"), PageRequest::RequestConfig);
    assert_eq!(classify_page_message("close_window"), PageRequest::CloseWindow);
    assert_eq!(classify_page_message("{\"config\":{}}"), PageRequest::Data);
    assert_eq!(classify_page_message("close_window "), PageRequest::Data);
}

#[test]
fn autostart_plans() {
    assert_eq!(plan_autostart(true, false), AutostartPlan::Enable { install: true });
    assert_eq!(plan_autostart(true, true), AutostartPlan::Enable { install: false });
    assert_eq!(plan_autostart(false, false), AutostartPlan::Disable);
}

#[test]
fn installed_executable_is_in_the_data_directory() {
    assert_eq!(installed_exe_path("/opt/KumaAgent"), "/opt/KumaAgent/kuma_agent.exe");
}
