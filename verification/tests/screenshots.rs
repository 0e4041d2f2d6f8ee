use ddev_manager::commands::screenshots::{
    capture_failed, capture_finished, capture_launching, capture_screenshot,
    capture_without_browser, find_chrome_executable, get_chrome_candidates, get_screenshot_data,
    get_screenshot_path, push_base64, screenshot_failure, screenshot_file_name, CaptureStep,
    ScreenshotFailure, ScreenshotRead,
};
use ddev_manager::error::DdevError;
use ddev_manager::events::UiEvent;
use ddev_manager::types::ScreenshotStatus;

fn base64_of(bytes: &[u8]) -> String {
    let mut out = String::new();
    push_base64(&mut out, bytes);
    out
}

fn shot(status: &str, path: Option<&str>, message: &str) -> ScreenshotStatus {
    ScreenshotStatus {
        project: "shop".to_string(),
        status: status.to_string(),
        path: path.map(|p| p.to_string()),
        message: Some(message.to_string()),
    }
}

#[test]
fn base64_of_short_inputs() {
    assert_eq!(base64_of(b""), "");
    assert_eq!(base64_of(b"f"), "Zg==");
    assert_eq!(base64_of(b"fo"), "Zm8=");
    assert_eq!(base64_of(b"foo"), "Zm9v");
    assert_eq!(base64_of(b"foob"), "Zm9vYg==");
    assert_eq!(base64_of(b"fooba"), "Zm9vYmE=");
    assert_eq!(base64_of(b"foobar"), "Zm9vYmFy");
    assert_eq!(base64_of(b"Man"), "TWFu");
}

#[test]
fn base64_uses_every_digit() {
    assert_eq!(base64_of(&[0, 0, 0]), "AAAA");
    assert_eq!(base64_of(&[255, 255, 255]), "////");
    assert_eq!(base64_of(&[251, 239, 190]), "++++");
    assert_eq!(base64_of(&[255]), "/w==");
    assert_eq!(base64_of(&[255, 255]), "//8=");
    let all: Vec<u8> = (0..=255).collect();
    assert_eq!(
        base64_of(&all),
        "AAECAwQFBgcICQoLDA0ODxAREhMUFRYXGBkaGxwdHh8gISIjJCUmJygpKissLS4vMDEyMzQ1Njc4OTo7PD0+P0BBQkNERUZHSElKS0xNTk9QUVJTVFVWV1hZWltcXV5fYGFiY2RlZmdoaWprbG1ub3BxcnN0dXZ3eHl6e3x9fn+AgYKDhIWGh4iJiouMjY6PkJGSk5SVlpeYmZqbnJ2en6ChoqOkpaanqKmqq6ytrq+wsbKztLW2t7i5uru8vb6/wMHCw8TFxsfIycrLzM3Oz9DR0tPU1dbX2Nna29zd3t/g4eLj5OXm5+jp6uvs7e7v8PHy8/T19vf4+fr7/P3+/w=="
    );
}

#[test]
fn base64_is_appended() {
    let mut out = "x:".to_string();
    push_base64(&mut out, b"hi");
    assert_eq!(out, "x:aGk=");
}

#[test]
fn screenshot_data_is_a_data_url() {
    assert_eq!(
        get_screenshot_data(ScreenshotRead::Bytes(vec![0x89, b'P', b'N', b'G'])),
        Ok(Some("data:image/png;base64,iVBORw==".to_string()))
    );
    assert_eq!(
        get_screenshot_data(ScreenshotRead::Bytes(Vec::new())),
        Ok(Some("data:image/png;base64,".to_string()))
    );
    assert_eq!(get_screenshot_data(ScreenshotRead::Missing), Ok(None));
    assert_eq!(
        get_screenshot_data(ScreenshotRead::OpenFailed("denied".to_string())),
        Err(DdevError::IoError("Failed to open screenshot: denied".to_string()))
    );
    assert_eq!(
        get_screenshot_data(ScreenshotRead::ReadFailed("short read".to_string())),
        Err(DdevError::IoError("Failed to read screenshot: short read".to_string()))
    );
}

#[test]
fn screenshot_files_are_named_after_the_project() {
    assert_eq!(screenshot_file_name("shop"), "shop.png");
    assert_eq!(
        get_screenshot_path("/data/screenshots/shop.png".to_string(), true),
        Some("/data/screenshots/shop.png".to_string())
    );
    assert_eq!(get_screenshot_path("/data/screenshots/shop.png".to_string(), false), None);
}

#[test]
fn screenshot_failures_become_errors() {
    let error = |text: &str| DdevError::IoError(text.to_string());
    assert_eq!(
        screenshot_failure(ScreenshotFailure::DataDir("unknown".to_string())),
        error("Failed to get app data dir: unknown")
    );
    assert_eq!(
        screenshot_failure(ScreenshotFailure::CreateDir("denied".to_string())),
        error("Failed to create screenshots dir: denied")
    );
    assert_eq!(
        screenshot_failure(ScreenshotFailure::Open("denied".to_string())),
        error("Failed to open screenshot: denied")
    );
    assert_eq!(
        screenshot_failure(ScreenshotFailure::Read("eof".to_string())),
        error("Failed to read screenshot: eof")
    );
    assert_eq!(
        screenshot_failure(ScreenshotFailure::Delete("busy".to_string())),
        error("Failed to delete screenshot: busy")
    );
}

#[test]
fn chrome_is_the_first_candidate_that_exists() {
    assert_eq!(
        get_chrome_candidates(),
        vec![
            "/usr/bin/google-chrome",
            "/usr/bin/google-chrome-stable",
            "/usr/bin/chromium",
            "/usr/bin/chromium-browser",
            "/snap/bin/chromium",
            "/usr/bin/brave-browser",
        ]
    );
    assert_eq!(find_chrome_executable(&vec![false; 6]), None);
    assert_eq!(find_chrome_executable(&Vec::new()), None);
    assert_eq!(
        find_chrome_executable(&vec![false, false, true, false, true, true]),
        Some("/usr/bin/chromium".to_string())
    );
    assert_eq!(
        find_chrome_executable(&vec![false, false, false, false, false, true]),
        Some("/usr/bin/brave-browser".to_string())
    );
    assert_eq!(
        find_chrome_executable(&vec![true]),
        Some("/usr/bin/google-chrome".to_string())
    );
    assert_eq!(
        find_chrome_executable(&vec![false, false, false, false, false, false, true]),
        None
    );
}

#[test]
fn capture_reports_each_stage() {
    assert_eq!(
        capture_screenshot("shop", "https://shop.ddev.site"),
        shot("started", None, "Capturing screenshot of https://shop.ddev.site")
    );
    assert_eq!(capture_launching("shop"), shot("capturing", None, "Launching browser..."));
    assert_eq!(
        capture_without_browser("shop"),
        shot(
            "error",
            None,
            "Chrome or Chromium not found. Please install google-chrome or chromium."
        )
    );
    assert_eq!(
        capture_finished("shop", "/data/shop.png".to_string()),
        shot("finished", Some("/data/shop.png"), "Screenshot captured successfully")
    );
    let failures = [
        (CaptureStep::LaunchOptions, "Failed to build launch options: why"),
        (CaptureStep::Launch, "Failed to launch browser: why"),
        (CaptureStep::NewTab, "Failed to create browser tab: why"),
        (CaptureStep::Navigate, "Failed to navigate to URL: why"),
        (CaptureStep::PageLoad, "Page load timeout: why"),
        (CaptureStep::Capture, "Failed to capture screenshot: why"),
        (CaptureStep::Save, "Failed to save screenshot: why"),
    ];
    for (step, message) in failures {
        assert_eq!(capture_failed("shop", step, "why"), shot("error", None, message));
    }
    assert_eq!(
        UiEvent::ScreenshotStatus(capture_launching("shop")).channel(),
        "screenshot-status"
    );
}
