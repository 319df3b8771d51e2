use vstd::prelude::*;

use crate::frame::{frame_abs_wf, frames_wf, Frame, FrameAbs, FrameSet};
use image::AnimationDecoder;

verus! {

/// Why a byte stream could not be turned into a frame set.
#[derive(Clone, Copy, Debug, PartialEq, Eq, Structural)]
pub enum DecodeError {
    /// The format hint names no format the decoder knows.
    UnrecognizedFormat,
    /// The byte stream is truncated or malformed for the declared format.
    Malformed,
    /// An animated stream declared itself but produced zero frames.
    NoFrames,
}

/// Whether the image crate recognizes this extension as a format name.
pub uninterp spec fn ext_known(ext: Seq<char>) -> bool;

/// What decoding a still image of the given format from the given bytes
/// yields: width, height and RGBA8 pixels, or nothing when the bytes are
/// rejected or the extension is unknown.
pub uninterp spec fn still_decode(bytes: Seq<u8>, ext: Seq<char>) -> Option<(u32, u32, Seq<u8>)>;

/// What decoding the given bytes as a GIF animation yields: every frame in
/// temporal order, each with its declared per-frame delay in milliseconds,
/// or nothing when the bytes are rejected.
pub uninterp spec fn gif_decode(bytes: Seq<u8>) -> Option<Seq<FrameAbs>>;

/// Relies on str's PartialEq: two string slices are equal exactly when their
/// character sequences are equal.
#[verifier::external_body]
fn str_eq(a: &str, b: &str) -> (r: bool)
    ensures
        r == (a@ == b@),
{
    a == b
}

/// Relies on image::ImageFormat::from_extension: whether an extension names
/// a known format is a fixed lookup on the extension string alone.
#[verifier::external_body]
fn format_known(ext: &str) -> (r: bool)
    ensures
        r == ext_known(ext@),
{
    match image::ImageFormat::from_extension(ext) {
        Some(_) => true,
        None => false,
    }
}

/// Relies on image::ImageReader::decode, with the format taken from
/// image::ImageFormat::from_extension: the decoded RGBA8 image is a function
/// of the input bytes and the extension alone, and the raw container of the
/// decoded image holds exactly width * height * 4 bytes.
#[verifier::external_body]
fn decode_still_rgba(bytes: &Vec<u8>, ext: &str) -> (r: Option<(u32, u32, Vec<u8>)>)
    ensures
        r is Some <==> still_decode(bytes@, ext@) is Some,
        r matches Some(t) ==> still_decode(bytes@, ext@) == Some((t.0, t.1, t.2@)),
        r matches Some(t) ==> t.2@.len() == 4 * t.0 * t.1,
{
    let fmt = match image::ImageFormat::from_extension(ext) {
        Some(f) => f,
        None => return None,
    };
    let reader = image::ImageReader::with_format(std::io::Cursor::new(bytes.as_slice()), fmt);
    let img = match reader.decode() {
        Ok(i) => i,
        Err(_) => return None,
    };
    let buf = img.into_rgba8();
    let (w, h) = (buf.width(), buf.height());
    Some((w, h, buf.into_raw()))
}

/// Relies on image::codecs::gif::GifDecoder, AnimationDecoder::into_frames
/// and Frames::collect_frames: the decoded frame sequence, with each frame's
/// RGBA8 pixels and declared delay, is a function of the input bytes alone,
/// and each frame's raw container holds exactly width * height * 4 bytes.
#[verifier::external_body]
fn decode_gif_frames(bytes: &Vec<u8>) -> (r: Option<Vec<Frame>>)
    ensures
        r is Some <==> gif_decode(bytes@) is Some,
        r matches Some(v) ==> gif_decode(bytes@) == Some(v@.map_values(|f: Frame| f.abs())),
        r matches Some(v) ==> forall|i: int|
            0 <= i < v@.len() ==> (#[trigger] v@[i]).rgba@.len() == 4 * v@[i].width * v@[i].height,
{
    let decoder = match image::codecs::gif::GifDecoder::new(std::io::Cursor::new(bytes.as_slice())) {
        Ok(d) => d,
        Err(_) => return None,
    };
    let frames = match decoder.into_frames().collect_frames() {
        Ok(f) => f,
        Err(_) => return None,
    };
    Some(frames.into_iter().map(|f| {
        let ms = std::time::Duration::from(f.delay()).as_millis() as u64;
        let buf = f.into_buffer();
        Frame { width: buf.width(), height: buf.height(), duration_ms: ms, rgba: buf.into_raw() }
    }).collect())
}

/// What `decode` yields on the given bytes and format hint: the abstract
/// frame sequence on success, and the exact error otherwise. A "gif" hint
/// decodes every frame eagerly with its declared delay; any other hint
/// decodes exactly one frame with zero duration. Frames with dimensions of
/// zero, or too large for a signed intrinsic size, count as malformed.
pub open spec fn decode_spec(bytes: Seq<u8>, ext: Seq<char>) -> Result<Seq<FrameAbs>, DecodeError> {
    if ext == "gif"@ {
        match gif_decode(bytes) {
            Option::None => Err(DecodeError::Malformed),
            Option::Some(s) => {
                if s.len() == 0 {
                    Err(DecodeError::NoFrames)
                } else if !frames_wf(s) {
                    Err(DecodeError::Malformed)
                } else {
                    Ok(s)
                }
            },
        }
    } else if !ext_known(ext) {
        Err(DecodeError::UnrecognizedFormat)
    } else {
        match still_decode(bytes, ext) {
            Option::None => Err(DecodeError::Malformed),
            Option::Some(t) => {
                if !frame_abs_wf((t.0, t.1, 0u64, t.2)) {
                    Err(DecodeError::Malformed)
                } else {
                    Ok(seq![(t.0, t.1, 0u64, t.2)])
                }
            },
        }
    }
}

/// Decode raw bytes with a caller-supplied format hint (typically the file
/// extension, lowercase, without the dot) into a non-empty frame set whose
/// pixel data is normalized to RGBA8. Mismatches between content and hint
/// surface as decode failure, never as misinterpretation.
pub fn decode(bytes: &Vec<u8>, ext: &str) -> (r: Result<FrameSet, DecodeError>)
    ensures
        r matches Ok(fs) ==> fs.wf() && decode_spec(bytes@, ext@) == Ok::<_, DecodeError>(fs.abs()),
        r matches Err(e) ==> decode_spec(bytes@, ext@) == Err::<Seq<FrameAbs>, _>(e),
        r matches Ok(fs) ==> (ext@ != "gif"@ ==> fs.abs().len() == 1 && fs.abs()[0].2 == 0),
        r matches Ok(fs) ==> (ext@ == "gif"@ ==> gif_decode(bytes@) == Some(fs.abs())),
{
    proof {
        reveal_strlit("gif");
    }
    if str_eq(ext, "gif") {
        match decode_gif_frames(bytes) {
            Option::None => Err(DecodeError::Malformed),
            Option::Some(v) => {
                if v.len() == 0 {
                    return Err(DecodeError::NoFrames);
                }
                let ghost s = gif_decode(bytes@).unwrap();
                let mut i: usize = 0;
                while i < v.len()
                    invariant
                        ext@ == "gif"@,
                        v@.len() > 0,
                        gif_decode(bytes@) == Some(v@.map_values(|f: Frame| f.abs())),
                        s == v@.map_values(|f: Frame| f.abs()),
                        forall|k: int|
                            0 <= k < v@.len() ==> (#[trigger] v@[k]).rgba@.len() == 4 * v@[k].width
                                * v@[k].height,
                        i <= v@.len(),
                        forall|k: int| 0 <= k < i ==> frame_abs_wf(#[trigger] s[k]),
                    decreases v@.len() - i,
                {
                    let f = &v[i];
                    proof {
                        assert(s[i as int] == v@[i as int].abs());
                    }
                    if f.width < 1 || f.width > 0x7fff_ffff || f.height < 1 || f.height > 0x7fff_ffff {
                        proof {
                            assert(!frame_abs_wf(s[i as int]));
                            assert(!frames_wf(s));
                        }
                        return Err(DecodeError::Malformed);
                    }
                    assert(frame_abs_wf(s[i as int]));
                    i = i + 1;
                }
                proof {
                    assert(frames_wf(s));
                }
                let fs = FrameSet { frames: v };
                assert(fs.abs() =~= s);
                assert forall|k: int| 0 <= k < fs.frames@.len() implies (#[trigger] fs.frames@[k]).wf() by {
                    assert(s[k] == v@[k].abs());
                    assert(frame_abs_wf(s[k]));
                }
                Ok(fs)
            },
        }
    } else if !format_known(ext) {
        Err(DecodeError::UnrecognizedFormat)
    } else {
        match decode_still_rgba(bytes, ext) {
            Option::None => Err(DecodeError::Malformed),
            Option::Some((w, h, rgba)) => {
                if w < 1 || w > 0x7fff_ffff || h < 1 || h > 0x7fff_ffff {
                    return Err(DecodeError::Malformed);
                }
                let f = Frame { width: w, height: h, duration_ms: 0, rgba };
                let fs = FrameSet { frames: vec![f] };
                assert(fs.abs() =~= seq![(w, h, 0u64, f.rgba@)]);
                Ok(fs)
            },
        }
    }
}

} // verus!
