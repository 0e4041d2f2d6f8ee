//! Screenshots of a project's site: where the browser is found, how a
//! capture reports, and how a stored picture is handed to the interface.

use vstd::prelude::*;
use vstd::string::*;
use crate::ddev::{first_present, pick_first};
use crate::error::{DdevError, DdevErrorView};
use crate::text::{concat, strings};
use crate::types::{ScreenshotStatus, ScreenshotStatusView};

verus! {

/// The places where a browser of the Chrome family is looked for on
/// Linux, in the order of the search.
pub open spec fn chrome_candidates() -> Seq<Seq<char>> {
    seq![
        "/usr/bin/google-chrome"@,
        "/usr/bin/google-chrome-stable"@,
        "/usr/bin/chromium"@,
        "/usr/bin/chromium-browser"@,
        "/snap/bin/chromium"@,
        "/usr/bin/brave-browser"@,
    ]
}

/// The places where a browser of the Chrome family is looked for.
pub fn get_chrome_candidates() -> (candidates: Vec<String>)
    ensures
        candidates.deep_view() == chrome_candidates(),
{
    let candidates = strings(
        &[
            "/usr/bin/google-chrome",
            "/usr/bin/google-chrome-stable",
            "/usr/bin/chromium",
            "/usr/bin/chromium-browser",
            "/snap/bin/chromium",
            "/usr/bin/brave-browser",
        ],
    );
    assert(candidates.deep_view() =~= chrome_candidates());
    candidates
}

/// Finds the browser: `present[i]` tells whether the `i`-th of
/// `get_chrome_candidates` exists, and the first that exists is taken.
pub fn find_chrome_executable(present: &Vec<bool>) -> (found: Option<String>)
    ensures
        found.deep_view() == first_present(chrome_candidates(), present@),
{
    let candidates = get_chrome_candidates();
    pick_first(&candidates, present)
}

/// The name of the file that holds the screenshot of `project`.
pub fn screenshot_file_name(project: &str) -> (name: String)
    ensures
        name@ == project@ + ".png"@,
{
    concat(project, ".png")
}

/// The step of a capture that went wrong.
#[derive(Clone, Copy, Debug, PartialEq, Eq, Structural)]
pub enum CaptureStep {
    /// Putting together how the browser is to be started.
    LaunchOptions,
    /// Starting the browser.
    Launch,
    /// Opening a tab.
    NewTab,
    /// Going to the address.
    Navigate,
    /// Waiting for the page.
    PageLoad,
    /// Taking the picture.
    Capture,
    /// Writing the picture to its file.
    Save,
}

/// What stands before the reason in the message of a failed capture.
pub open spec fn capture_failure_prefix(step: CaptureStep) -> Seq<char> {
    match step {
        CaptureStep::LaunchOptions => "Failed to build launch options: "@,
        CaptureStep::Launch => "Failed to launch browser: "@,
        CaptureStep::NewTab => "Failed to create browser tab: "@,
        CaptureStep::Navigate => "Failed to navigate to URL: "@,
        CaptureStep::PageLoad => "Page load timeout: "@,
        CaptureStep::Capture => "Failed to capture screenshot: "@,
        CaptureStep::Save => "Failed to save screenshot: "@,
    }
}

/// A status event of a capture.
pub open spec fn screenshot_status(
    project: Seq<char>,
    status: Seq<char>,
    path: Option<Seq<char>>,
    message: Seq<char>,
) -> ScreenshotStatusView {
    ScreenshotStatusView { project, status, path, message: Some(message) }
}

fn status(project: &str, word: &str, path: Option<String>, message: String) -> (event:
    ScreenshotStatus)
    ensures
        event@ == screenshot_status(project@, word@, path.deep_view(), message@),
{
    ScreenshotStatus {
        project: String::from_str(project),
        status: String::from_str(word),
        path,
        message: Some(message),
    }
}

/// The event that announces the capture of `url` for `project`.
pub fn capture_screenshot(project: &str, url: &str) -> (event: ScreenshotStatus)
    ensures
        event@ == screenshot_status(
            project@,
            "started"@,
            None,
            "Capturing screenshot of "@ + url@,
        ),
{
    status(project, "started", None, concat("Capturing screenshot of ", url))
}

/// The event that tells that the browser is being started.
pub fn capture_launching(project: &str) -> (event: ScreenshotStatus)
    ensures
        event@ == screenshot_status(project@, "capturing"@, None, "Launching browser..."@),
{
    status(project, "capturing", None, String::from_str("Launching browser..."))
}

/// The event that tells that no browser was found.
pub fn capture_without_browser(project: &str) -> (event: ScreenshotStatus)
    ensures
        event@ == screenshot_status(
            project@,
            "error"@,
            None,
            "Chrome or Chromium not found. Please install google-chrome or chromium."@,
        ),
{
    status(
        project,
        "error",
        None,
        String::from_str("Chrome or Chromium not found. Please install google-chrome or chromium."),
    )
}

/// The event that tells that the capture failed at `step`, for `reason`.
pub fn capture_failed(project: &str, step: CaptureStep, reason: &str) -> (event: ScreenshotStatus)
    ensures
        event@ == screenshot_status(
            project@,
            "error"@,
            None,
            capture_failure_prefix(step) + reason@,
        ),
{
    let prefix = match step {
        CaptureStep::LaunchOptions => "Failed to build launch options: ",
        CaptureStep::Launch => "Failed to launch browser: ",
        CaptureStep::NewTab => "Failed to create browser tab: ",
        CaptureStep::Navigate => "Failed to navigate to URL: ",
        CaptureStep::PageLoad => "Page load timeout: ",
        CaptureStep::Capture => "Failed to capture screenshot: ",
        CaptureStep::Save => "Failed to save screenshot: ",
    };
    status(project, "error", None, concat(prefix, reason))
}

/// The event that tells that the screenshot is stored at `path`.
pub fn capture_finished(project: &str, path: String) -> (event: ScreenshotStatus)
    ensures
        event@ == screenshot_status(
            project@,
            "finished"@,
            Some(path@),
            "Screenshot captured successfully"@,
        ),
{
    status(project, "finished", Some(path), String::from_str("Screenshot captured successfully"))
}

/// What went wrong with the directory or the file of a screenshot. Each
/// holds the words of the operating system.
#[derive(Debug)]
pub enum ScreenshotFailure {
    /// The directory for the application's data is not known.
    DataDir(String),
    /// The directory for screenshots could not be made.
    CreateDir(String),
    /// The file could not be opened.
    Open(String),
    /// The file could not be read.
    Read(String),
    /// The file could not be removed.
    Delete(String),
}

/// The error that a failure around a screenshot is reported as.
pub open spec fn screenshot_error(failure: ScreenshotFailure) -> DdevErrorView {
    match failure {
        ScreenshotFailure::DataDir(e) => DdevErrorView::IoError(
            "Failed to get app data dir: "@ + e@,
        ),
        ScreenshotFailure::CreateDir(e) => DdevErrorView::IoError(
            "Failed to create screenshots dir: "@ + e@,
        ),
        ScreenshotFailure::Open(e) => DdevErrorView::IoError("Failed to open screenshot: "@ + e@),
        ScreenshotFailure::Read(e) => DdevErrorView::IoError("Failed to read screenshot: "@ + e@),
        ScreenshotFailure::Delete(e) => DdevErrorView::IoError(
            "Failed to delete screenshot: "@ + e@,
        ),
    }
}

/// The error that a failure around a screenshot is reported as.
pub fn screenshot_failure(failure: ScreenshotFailure) -> (error: DdevError)
    ensures
        error@ == screenshot_error(failure),
{
    match failure {
        ScreenshotFailure::DataDir(e) => DdevError::IoError(
            concat("Failed to get app data dir: ", e.as_str()),
        ),
        ScreenshotFailure::CreateDir(e) => DdevError::IoError(
            concat("Failed to create screenshots dir: ", e.as_str()),
        ),
        ScreenshotFailure::Open(e) => DdevError::IoError(
            concat("Failed to open screenshot: ", e.as_str()),
        ),
        ScreenshotFailure::Read(e) => DdevError::IoError(
            concat("Failed to read screenshot: ", e.as_str()),
        ),
        ScreenshotFailure::Delete(e) => DdevError::IoError(
            concat("Failed to delete screenshot: ", e.as_str()),
        ),
    }
}

/// The path of a project's screenshot, if the file is there.
pub fn get_screenshot_path(path: String, exists: bool) -> (found: Option<String>)
    ensures
        found.deep_view() == (if exists {
            Some(path@)
        } else {
            None
        }),
{
    if exists {
        Some(path)
    } else {
        None
    }
}

/// The sixty-four digits of Base64.
pub open spec fn base64_alphabet() -> Seq<char> {
    "ABCDEFGHIJKLMNOPQRSTUVWXYZabcdefghijklmnopqrstuvwxyz0123456789+/"@
}

/// The number that up to three bytes make when written side by side, with
/// zeros for the bytes that are missing.
pub open spec fn group_value(bytes: Seq<u8>) -> int {
    (if bytes.len() > 0 {
        bytes[0] as int
    } else {
        0
    }) * 65536 + (if bytes.len() > 1 {
        bytes[1] as int
    } else {
        0
    }) * 256 + (if bytes.len() > 2 {
        bytes[2] as int
    } else {
        0
    })
}

/// The four characters that stand for a group of one, two or three bytes:
/// the digits of the group's number to the base of sixty-four, from the
/// most significant, with `=` in place of each digit that no byte of the
/// group reaches into.
pub open spec fn base64_group(bytes: Seq<u8>) -> Seq<char> {
    let n = group_value(bytes);
    seq![
        base64_alphabet()[n / 262144],
        base64_alphabet()[(n / 4096) % 64],
        if bytes.len() > 1 {
            base64_alphabet()[(n / 64) % 64]
        } else {
            '='
        },
        if bytes.len() > 2 {
            base64_alphabet()[n % 64]
        } else {
            '='
        },
    ]
}

/// The Base64 text of a sequence of bytes, with padding: group by group,
/// three bytes at a time.
pub open spec fn base64_text(bytes: Seq<u8>) -> Seq<char>
    decreases bytes.len(),
{
    if bytes.len() == 0 {
        Seq::empty()
    } else if bytes.len() <= 3 {
        base64_group(bytes)
    } else {
        base64_group(bytes.take(3)) + base64_text(bytes.skip(3))
    }
}

/// A picture as the address that a web view can show.
pub open spec fn png_data_url(bytes: Seq<u8>) -> Seq<char> {
    "data:image/png;base64,"@ + base64_text(bytes)
}

proof fn lemma_alphabet()
    ensures
        base64_alphabet().len() == 64,
        vstd::utf8::is_ascii_chars(base64_alphabet()),
{
    reveal_strlit("ABCDEFGHIJKLMNOPQRSTUVWXYZabcdefghijklmnopqrstuvwxyz0123456789+/");
}

fn push_digit(out: &mut String, digit: u32)
    requires
        digit < 64,
    ensures
        final(out)@ == old(out)@.push(base64_alphabet()[digit as int]),
{
    let alphabet = "ABCDEFGHIJKLMNOPQRSTUVWXYZabcdefghijklmnopqrstuvwxyz0123456789+/";
    proof {
        lemma_alphabet();
    }
    let at: usize = digit as usize;
    let one = alphabet.substring_ascii(at, at + 1);
    out.append(one);
    assert(out@ =~= old(out)@.push(base64_alphabet()[digit as int]));
}

fn push_pad(out: &mut String)
    ensures
        final(out)@ == old(out)@.push('='),
{
    proof {
        reveal_strlit("=");
    }
    out.append("=");
    assert(out@ =~= old(out)@.push('='));
}

fn push_group(out: &mut String, bytes: &[u8], start: usize, len: usize)
    requires
        1 <= len <= 3,
        start + len <= bytes.len(),
    ensures
        final(out)@ == old(out)@ + base64_group(bytes@.subrange(start as int, start + len)),
{
    let ghost group = bytes@.subrange(start as int, start + len);
    let b0: u32 = bytes[start] as u32;
    let b1: u32 = if len > 1 {
        bytes[start + 1] as u32
    } else {
        0
    };
    let b2: u32 = if len > 2 {
        bytes[start + 2] as u32
    } else {
        0
    };
    let n: u32 = b0 * 65536 + b1 * 256 + b2;
    assert(n as int == group_value(group));
    push_digit(out, n / 262144);
    push_digit(out, (n / 4096) % 64);
    if len > 1 {
        push_digit(out, (n / 64) % 64);
    } else {
        push_pad(out);
    }
    if len > 2 {
        push_digit(out, n % 64);
    } else {
        push_pad(out);
    }
    assert(out@ =~= old(out)@ + base64_group(group));
}

/// Appends the Base64 text of `bytes` to `out`.
pub fn push_base64(out: &mut String, bytes: &[u8])
    ensures
        final(out)@ == old(out)@ + base64_text(bytes@),
{
    let mut at: usize = 0;
    assert(bytes@.skip(0) =~= bytes@);
    while bytes.len() - at > 3
        invariant
            at <= bytes.len(),
            old(out)@ + base64_text(bytes@) == out@ + base64_text(bytes@.skip(at as int)),
        decreases bytes.len() - at,
    {
        let ghost rest = bytes@.skip(at as int);
        proof {
            assert(rest.take(3) =~= bytes@.subrange(at as int, at + 3));
            assert(rest.skip(3) =~= bytes@.skip(at + 3));
        }
        let ghost before = out@;
        push_group(out, bytes, at, 3);
        proof {
            assert(before + base64_text(rest) =~= out@ + base64_text(bytes@.skip(at + 3)));
        }
        at = at + 3;
    }
    let left: usize = bytes.len() - at;
    let ghost rest = bytes@.skip(at as int);
    if left > 0 {
        proof {
            assert(rest =~= bytes@.subrange(at as int, at + left));
        }
        let ghost before = out@;
        push_group(out, bytes, at, left);
        assert(out@ =~= before + base64_text(rest));
    } else {
        assert(out@ =~= out@ + base64_text(rest));
    }
}

/// What reading the file of a screenshot gave.
#[derive(Debug)]
pub enum ScreenshotRead {
    /// There is no such file.
    Missing,
    /// The file could not be opened; the text says why.
    OpenFailed(String),
    /// The file could not be read; the text says why.
    ReadFailed(String),
    /// The bytes of the file.
    Bytes(Vec<u8>),
}

/// What `get_screenshot_data` hands to the interface.
pub open spec fn screenshot_data(read: ScreenshotRead) -> Result<Option<Seq<char>>, DdevErrorView> {
    match read {
        ScreenshotRead::Missing => Ok(None),
        ScreenshotRead::OpenFailed(e) => Err(
            DdevErrorView::IoError("Failed to open screenshot: "@ + e@),
        ),
        ScreenshotRead::ReadFailed(e) => Err(
            DdevErrorView::IoError("Failed to read screenshot: "@ + e@),
        ),
        ScreenshotRead::Bytes(bytes) => Ok(Some(png_data_url(bytes@))),
    }
}

/// The view of what `get_screenshot_data` returned.
pub open spec fn data_result_view(result: Result<Option<String>, DdevError>) -> Result<
    Option<Seq<char>>,
    DdevErrorView,
> {
    match result {
        Ok(data) => Ok(data.deep_view()),
        Err(e) => Err(e@),
    }
}

/// The screenshot of a project as an address that the web view can show:
/// `data:image/png;base64,` and the bytes of the file in Base64. Nothing
/// where there is no file.
pub fn get_screenshot_data(read: ScreenshotRead) -> (result: Result<Option<String>, DdevError>)
    ensures
        data_result_view(result) == screenshot_data(read),
{
    match read {
        ScreenshotRead::Missing => Ok(None),
        ScreenshotRead::OpenFailed(e) => Err(screenshot_failure(ScreenshotFailure::Open(e))),
        ScreenshotRead::ReadFailed(e) => Err(screenshot_failure(ScreenshotFailure::Read(e))),
        ScreenshotRead::Bytes(bytes) => {
            let mut url = String::from_str("data:image/png;base64,");
            push_base64(&mut url, bytes.as_slice());
            Ok(Some(url))
        },
    }
}

} // verus!
