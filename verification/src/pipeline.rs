//! The capture pipeline: format negotiation data, frame processing
//! (convert then encode), output naming, result summaries and the
//! scheduler's log routing.
//!
//! Device I/O itself (opening the device, streaming a frame, writing files)
//! stays outside the library; the pipeline here is everything that decides
//! and computes between those edges.
use vstd::prelude::*;
use vstd::string::StringExecFns;

use crate::convert::convert_spec;
use crate::convert::convert_yuyv_to_rgb;
use crate::decimal::dec_seq;
use crate::decimal::u32_to_decimal;

verus! {

/// The four ASCII bytes "YUYV" identifying the packed 4:2:2 pixel format.
pub open spec fn yuyv_fourcc() -> Seq<u8> {
    seq![89u8, 85u8, 89u8, 86u8]
}

/// A capture format as the device reports or applies it: frame size and the
/// four-character pixel-format code.  After negotiation the device's applied
/// format is authoritative for all buffer-size computation.
#[derive(Clone, Copy, Debug)]
pub struct CaptureFormat {
    pub width: u32,
    pub height: u32,
    pub fourcc: [u8; 4],
}

/// The format the pipeline requests from the device: full HD, packed YUYV.
/// The device may apply something else; the caller must feed the *applied*
/// format back into [`process_frame`].
pub fn requested_format() -> (r: CaptureFormat)
    ensures
        r.width == 1920,
        r.height == 1080,
        r.fourcc@ == yuyv_fourcc(),
{
    let fourcc: [u8; 4] = [89, 85, 89, 86];
    let r = CaptureFormat { width: 1920, height: 1080, fourcc };
    proof {
        assert(r.fourcc@ =~= yuyv_fourcc());
    }
    r
}

/// One failure cause per pipeline step, each carrying a displayable message.
#[derive(Debug)]
pub enum CaptureError {
    /// Missing or invalid configuration value.
    Configuration(String),
    /// Device unavailable, busy or refusing the format.
    Device(String),
    /// Frame pull failure, or a frame that does not match the negotiated
    /// format.
    CaptureIo(String),
    /// Compressed-image encoding failure.
    Encoding(String),
    /// Output path creation or write failure.
    Filesystem(String),
}

/// The prefix that [`CaptureError::describe`] puts before the cause.
pub open spec fn error_prefix(e: CaptureError) -> Seq<char> {
    match e {
        CaptureError::Configuration(_) => "configuration error: "@,
        CaptureError::Device(_) => "device error: "@,
        CaptureError::CaptureIo(_) => "capture i/o error: "@,
        CaptureError::Encoding(_) => "encoding error: "@,
        CaptureError::Filesystem(_) => "filesystem error: "@,
    }
}

/// The message carried inside a [`CaptureError`].
pub open spec fn error_cause(e: CaptureError) -> Seq<char> {
    match e {
        CaptureError::Configuration(c) => c@,
        CaptureError::Device(c) => c@,
        CaptureError::CaptureIo(c) => c@,
        CaptureError::Encoding(c) => c@,
        CaptureError::Filesystem(c) => c@,
    }
}

impl CaptureError {
    /// The displayable cause string: a step-naming prefix, then the message.
    pub fn describe(&self) -> (r: String)
        ensures
            r@ == error_prefix(*self) + error_cause(*self),
    {
        let mut s = match self {
            CaptureError::Configuration(_) => "configuration error: ".to_owned(),
            CaptureError::Device(_) => "device error: ".to_owned(),
            CaptureError::CaptureIo(_) => "capture i/o error: ".to_owned(),
            CaptureError::Encoding(_) => "encoding error: ".to_owned(),
            CaptureError::Filesystem(_) => "filesystem error: ".to_owned(),
        };
        let cause = match self {
            CaptureError::Configuration(c) => c,
            CaptureError::Device(c) => c,
            CaptureError::CaptureIo(c) => c,
            CaptureError::Encoding(c) => c,
            CaptureError::Filesystem(c) => c,
        };
        s.append(cause.as_str());
        s
    }
}

/// The bytes that quality-100 JPEG encoding produces for a tightly packed
/// RGB raster of the given size.  The encoding is a function of the raster
/// and the dimensions alone.
pub uninterp spec fn jpeg100_of(rgb: Seq<u8>, width: u32, height: u32) -> Seq<u8>;

/// Relies on image::codecs::jpeg::JpegEncoder, built with
/// new_with_quality(_, 100) over an in-memory Vec<u8> sink (whose writes
/// cannot fail) and called with ExtendedColorType::Rgb8: given a raster of
/// exactly width*height*3 bytes it returns Ok exactly when both dimensions
/// lie in 1..=65535, and the bytes written depend on the raster, the
/// dimensions and the fixed quality alone.
#[verifier::external_body]
fn jpeg_encode_rgb(rgb: &Vec<u8>, width: u32, height: u32) -> (r: Option<Vec<u8>>)
    requires
        rgb@.len() == 3 * (width as int) * (height as int),
    ensures
        r is Some <==> (1 <= width <= 65535 && 1 <= height <= 65535),
        r is Some ==> r->0@ == jpeg100_of(rgb@, width, height),
{
    let mut out: Vec<u8> = Vec::new();
    let mut encoder = image::codecs::jpeg::JpegEncoder::new_with_quality(&mut out, 100);
    match encoder.encode(rgb, width, height, image::ExtendedColorType::Rgb8) {
        Ok(()) => Some(out),
        Err(_) => None,
    }
}

/// Whether a raw frame fills the applied format exactly: the packed YUYV
/// layout holds two bytes per pixel, and a whole number of four-byte groups
/// needs an even pixel count.
pub open spec fn frame_fits(frame: Seq<u8>, fmt: CaptureFormat) -> bool {
    frame.len() == 2 * (fmt.width * fmt.height) && (fmt.width * fmt.height) % 2 == 0
}

/// Whether the applied dimensions can be encoded as a JPEG still.
pub open spec fn encodable_dims(fmt: CaptureFormat) -> bool {
    1 <= fmt.width <= 65535 && 1 <= fmt.height <= 65535
}

/// Convert one raw frame under the applied format and encode it as a
/// quality-100 JPEG still, in memory.
///
/// All sizes come from `fmt`, the format the device actually applied; a
/// frame that does not fill that format exactly is rejected rather than
/// encoded short.
pub fn process_frame(frame: &[u8], fmt: &CaptureFormat) -> (r: Result<Vec<u8>, CaptureError>)
    ensures
        r is Ok <==> frame_fits(frame@, *fmt) && encodable_dims(*fmt),
        r is Ok ==> r->Ok_0@ == jpeg100_of(convert_spec(frame@), fmt.width, fmt.height),
        frame@.len() != 2 * (fmt.width * fmt.height) ==> r is Err && r->Err_0 is CaptureIo,
        frame@.len() == 2 * (fmt.width * fmt.height) && !(frame_fits(frame@, *fmt)
            && encodable_dims(*fmt)) ==> r is Err && r->Err_0 is Encoding,
{
    let n = frame.len();
    proof {
        assert((fmt.width as int) * (fmt.height as int) <= 0xffff_ffff * 0xffff_ffff)
            by (nonlinear_arith)
            requires
                fmt.width <= 0xffff_ffffu32,
                fmt.height <= 0xffff_ffffu32,
        ;
    }
    let wh: u64 = (fmt.width as u64) * (fmt.height as u64);
    if wh > u64::MAX / 2 || (n as u64) != 2 * wh {
        proof {
            if wh > u64::MAX / 2 {
                assert(2 * (wh as int) > u64::MAX);
                assert(n as int <= usize::MAX);
            }
        }
        return Result::Err(
            CaptureError::CaptureIo("frame does not fill the negotiated format".to_owned()),
        );
    }
    if wh % 2 != 0 {
        return Result::Err(
            CaptureError::Encoding("frame holds a trailing half group of pixels".to_owned()),
        );
    }
    let rgb = convert_yuyv_to_rgb(frame, fmt.width, fmt.height);
    proof {
        assert(3 * ((fmt.width as int) * (fmt.height as int)) == 3 * (fmt.width as int) * (
        fmt.height as int)) by (nonlinear_arith);
    }
    match jpeg_encode_rgb(&rgb, fmt.width, fmt.height) {
        Option::Some(jpeg) => Result::Ok(jpeg),
        Option::None => Result::Err(
            CaptureError::Encoding("image dimensions unsuited to a JPEG still".to_owned()),
        ),
    }
}

/// The output file path for a capture stamped `stamp`, under `data_dir`.
pub fn output_path(data_dir: &str, stamp: &str) -> (r: String)
    ensures
        r@ == data_dir@ + "/"@ + stamp@ + ".jpg"@,
{
    let mut s = data_dir.to_owned();
    s.append("/");
    s.append(stamp);
    s.append(".jpg");
    s
}

/// Relies on chrono::Local::now and its "%Y-%m-%d_%H:%M" formatting: the
/// minute-resolution local timestamp that names output files.  The result
/// depends on the clock, so nothing is promised of it.
#[verifier::external_body]
fn minute_stamp() -> String {
    chrono::Local::now().format("%Y-%m-%d_%H:%M").to_string()
}

/// Relies on chrono::Local::now and its "%Y-%m-%d %H:%M:%S" formatting: the
/// second-resolution local timestamp that prefixes log lines.  The result
/// depends on the clock, so nothing is promised of it.
#[verifier::external_body]
fn second_stamp() -> String {
    chrono::Local::now().format("%Y-%m-%d %H:%M:%S").to_string()
}

/// The output file path for a capture taken now: `data_dir`, a slash, the
/// current minute-resolution timestamp, and the JPEG suffix.  Returns the
/// path and the timestamp it embeds.
pub fn timestamped_output_path(data_dir: &str) -> (r: (String, String))
    ensures
        r.0@ == data_dir@ + "/"@ + r.1@ + ".jpg"@,
{
    let stamp = minute_stamp();
    let path = output_path(data_dir, stamp.as_str());
    (path, stamp)
}

/// The success summary: the output path, then the applied resolution.
pub fn capture_summary(path: &str, width: u32, height: u32) -> (r: String)
    ensures
        r@ == path@ + " saved. Resolution: "@ + dec_seq(width as nat) + "x"@ + dec_seq(
            height as nat,
        ),
{
    let mut s = path.to_owned();
    s.append(" saved. Resolution: ");
    let w = u32_to_decimal(width);
    s.append(w.as_str());
    s.append("x");
    let h = u32_to_decimal(height);
    s.append(h.as_str());
    s
}

/// One log line: the timestamp in brackets, then the message.
pub fn log_line(stamp: &str, msg: &str) -> (r: String)
    ensures
        r@ == "["@ + stamp@ + "]: "@ + msg@,
{
    let mut s = "[".to_owned();
    s.append(stamp);
    s.append("]: ");
    s.append(msg);
    s
}

/// One log line stamped now: the current second-resolution timestamp in
/// brackets, then the message.  Returns the line and the timestamp it embeds.
pub fn timestamped_log_line(msg: &str) -> (r: (String, String))
    ensures
        r.0@ == "["@ + r.1@ + "]: "@ + msg@,
{
    let stamp = second_stamp();
    let line = log_line(stamp.as_str(), msg);
    (line, stamp)
}

/// The scheduler's routing rule: a success goes to the "pictures" channel
/// under its summary, a failure to the "pictures_error" channel under its
/// displayable cause.  Failures never escalate: every outcome becomes a log
/// entry on one of the two channels.
pub fn log_route(outcome: Result<String, CaptureError>) -> (r: (String, String))
    ensures
        outcome is Ok ==> r.0@ == "pictures"@ && r.1@ == outcome->Ok_0@,
        outcome is Err ==> r.0@ == "pictures_error"@ && r.1@ == error_prefix(outcome->Err_0)
            + error_cause(outcome->Err_0),
{
    match outcome {
        Result::Ok(summary) => ("pictures".to_owned(), summary),
        Result::Err(err) => ("pictures_error".to_owned(), err.describe()),
    }
}

/// The log file path for a channel: `log_dir`, a slash, the channel name,
/// and the log suffix.
pub fn log_file_path(log_dir: &str, channel: &str) -> (r: String)
    ensures
        r@ == log_dir@ + "/"@ + channel@ + ".log"@,
{
    let mut s = log_dir.to_owned();
    s.append("/");
    s.append(channel);
    s.append(".log");
    s
}

} // verus!
