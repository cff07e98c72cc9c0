use anchoring::browser::{BrowserService, Platform};

#[test]
fn usual_places_by_platform() {
    let service = BrowserService::new();
    assert_eq!(
        service.candidate_paths(Platform::Unix),
        vec![
            "/usr/bin/google-chrome",
            "/usr/bin/chromium",
            "/usr/bin/chromium-browser",
            "/snap/bin/chromium"
        ]
    );
    assert_eq!(
        service.candidate_paths(Platform::MacOs)[0],
        "/Applications/Google Chrome.app/Contents/MacOS/Google Chrome"
    );
    assert_eq!(
        service.candidate_paths(Platform::Windows)[3],
        r"C:\Program Files (x86)\Microsoft\Edge\Application\msedge.exe"
    );
}

#[test]
fn first_usual_place_with_a_browser_wins() {
    let service = BrowserService::new();
    assert_eq!(
        service.find_chrome_path(Platform::Unix, &[false, true, true, false], &[]),
        Some("/usr/bin/chromium".to_string())
    );
    assert_eq!(
        service.find_chrome_path(
            Platform::Unix,
            &[true],
            &[Some("/opt/chrome".to_string())]
        ),
        Some("/usr/bin/google-chrome".to_string())
    );
}

#[test]
fn shell_is_asked_where_no_usual_place_has_a_browser() {
    let service = BrowserService::new();
    let answers = [None, Some("  /opt/chromium/chrome\n".to_string())];
    assert_eq!(
        service.find_chrome_path(Platform::Unix, &[false; 4], &answers),
        Some("/opt/chromium/chrome".to_string())
    );
    assert_eq!(
        service.find_chrome_path(Platform::MacOs, &[], &answers),
        Some("/opt/chromium/chrome".to_string())
    );
    let blank = [Some(" \n".to_string()), None];
    assert_eq!(service.find_chrome_path(Platform::Unix, &[false; 4], &blank), None);
    assert_eq!(service.find_chrome_path(Platform::Unix, &[false; 4], &[]), None);
}

#[test]
fn shell_is_not_asked_on_windows() {
    let service = BrowserService::new();
    let answers = [Some("C:\\chrome.exe".to_string())];
    assert_eq!(service.find_chrome_path(Platform::Windows, &[false; 4], &answers), None);
}

#[test]
fn missing_browser_is_an_error() {
    let service = BrowserService::new();
    assert_eq!(service.get_chrome_path(Some("/usr/bin/chromium".to_string())), Ok("/usr/bin/chromium".to_string()));
    assert_eq!(
        service.get_chrome_path(None),
        Err("Chrome or Chromium is not installed.".to_string())
    );
}

#[test]
fn default_browser_service_equals_a_new_one() {
    assert_eq!(BrowserService::default(), BrowserService::new());
}
