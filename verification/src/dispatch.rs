//! The dispatch of an object to the resizer for its media type.

use crate::codec::{decoded_size, gif_probed, png_decoded, ImageFormat};
use crate::img::{
    animated_webp, copy_bytes, gif_plan_of, is_webp_animated, png_resized, rendition_view,
    resize_gif, resize_png, resize_static, resize_webp, static_resized, svg_to_png, webp_resized,
    ExternalPlan, Rendition, TransformError, TransformErrorView, GIF_MEMORY_LIMIT,
};
use crate::object::{Object, ObjectView};
use crate::store::local_type;
use crate::text::{optional_text, str_eq};
use vstd::prelude::*;

verus! {

/// Bytes with their media type.
#[derive(Debug)]
pub struct Payload {
    pub content_type: String,
    pub data: Vec<u8>,
}

/// What contracts say of a [`Payload`].
pub struct PayloadView {
    pub content_type: Seq<char>,
    pub data: Seq<u8>,
}

impl View for Payload {
    type V = PayloadView;

    open spec fn view(&self) -> PayloadView {
        PayloadView { content_type: self.content_type@, data: self.data@ }
    }
}

/// How far the engine got with an object.
#[derive(Debug)]
pub enum Processed {
    /// The rendition is made.
    Done(Payload),
    /// The GIF tool is to resample the stored payload to this width and height, writing
    /// the rendition to the object's rendition path.
    Gifsicle { width: u32, height: u32 },
    /// The container of the stored payload is to be read for its tracks, which decide what
    /// is asked of the video converter.
    ProbeVideo,
    /// The media type is to be guessed from the stored payload.
    Guess,
}

/// What contracts say of [`Processed`].
pub enum ProcessedView {
    Done(PayloadView),
    Gifsicle { width: u32, height: u32 },
    ProbeVideo,
    Guess,
}

impl View for Processed {
    type V = ProcessedView;

    open spec fn view(&self) -> ProcessedView {
        match self {
            Processed::Done(p) => ProcessedView::Done(p@),
            Processed::Gifsicle { width, height } => ProcessedView::Gifsicle {
                width: *width,
                height: *height,
            },
            Processed::ProbeVideo => ProcessedView::ProbeVideo,
            Processed::Guess => ProcessedView::Guess,
        }
    }
}

/// What the engine's answer says to contracts.
pub type Outcome = Result<ProcessedView, TransformErrorView>;

/// The view of the engine's answer.
pub open spec fn outcome_view(r: Result<Processed, TransformError>) -> Outcome {
    match r {
        Ok(p) => Ok(p@),
        Err(e) => Err(e@),
    }
}

/// A resizer's answer as the engine's: a finished rendition of this media type.
pub open spec fn done(content_type: Seq<char>, r: Rendition) -> Outcome {
    match r {
        Ok(data) => Ok(ProcessedView::Done(PayloadView { content_type, data })),
        Err(e) => Err(e),
    }
}

/// The answer for a GIF, given what is asked of the GIF tool.
pub open spec fn gif_outcome(plan: ExternalPlan, data: Seq<u8>) -> Outcome {
    match plan {
        ExternalPlan::Keep => Ok(
            ProcessedView::Done(PayloadView { content_type: "image/gif"@, data }),
        ),
        ExternalPlan::Run(width, height) => Ok(ProcessedView::Gifsicle { width, height }),
    }
}

/// The media type whose rendition depends on more than the object: an SVG is drawn with the
/// fonts of the machine.
pub open spec fn is_open_type(content_type: Seq<char>) -> bool {
    content_type == "image/svg+xml"@
}

/// The engine's answer for every media type but that of [`is_open_type`].
///
/// JPEG goes through the generic resizer. PNG goes through the PNG resizer, or through the
/// generic one where `engine` is 1. WebP goes through the WebP resizer, as an animation where
/// the container holds one. For a GIF the GIF tool is asked. For a video the tracks of its
/// container are asked for. An unknown binary type has its type guessed. Every other type is
/// handed back as it is.
pub open spec fn processed(obj: ObjectView, engine: u32) -> Outcome {
    let ct = obj.content_type;
    if ct == "image/jpeg"@ || ct == "image/jpg"@ {
        done("image/jpeg"@, static_resized(obj.data, obj.scale, ImageFormat::Jpeg))
    } else if ct == "image/png"@ {
        if engine == 1 {
            done("image/png"@, static_resized(obj.data, obj.scale, ImageFormat::Png))
        } else {
            done("image/png"@, png_resized(obj.data, obj.scale))
        }
    } else if ct == "image/webp"@ {
        done("image/webp"@, webp_resized(obj.data, obj.scale, animated_webp(obj.data)))
    } else if ct == "image/gif"@ {
        gif_outcome(
            gif_plan_of(gif_probed(obj.data, GIF_MEMORY_LIMIT, true), obj.scale),
            obj.data,
        )
    } else if ct == "video/mp4"@ {
        Ok(ProcessedView::ProbeVideo)
    } else if ct == "application/octet-stream"@ {
        Ok(ProcessedView::Guess)
    } else {
        Ok(ProcessedView::Done(PayloadView { content_type: ct, data: obj.data }))
    }
}

/// What the engine may answer for an SVG: the renderer's error, or what the generic
/// resizer makes of some PNG.
pub open spec fn svg_outcome(r: Outcome, scale: u32) -> bool {
    ||| (r matches Err(e) && e is Codec)
    ||| exists|png: Seq<u8>|
        r == done("image/png"@, #[trigger] static_resized(png, scale, ImageFormat::Png))
}

/// The media types that the engine tells apart are different texts.
pub proof fn lemma_media_types_differ()
    ensures
        "image/png"@ != "image/jpeg"@,
        "image/png"@ != "image/jpg"@,
        !is_open_type("image/jpeg"@),
        !is_open_type("image/jpg"@),
        !is_open_type("image/png"@),
        !is_open_type("image/webp"@),
        !is_open_type("image/gif"@),
        !is_open_type("video/mp4"@),
        !is_open_type("application/octet-stream"@),
{
    reveal_strlit("image/jpeg");
    reveal_strlit("image/jpg");
    reveal_strlit("image/png");
    reveal_strlit("image/webp");
    reveal_strlit("image/gif");
    reveal_strlit("image/svg+xml");
    reveal_strlit("video/mp4");
    reveal_strlit("application/octet-stream");
    assert("image/svg+xml"@.len() == 13);
    assert("image/jpeg"@.len() == 10);
    assert("image/webp"@.len() == 10);
    assert("image/png"@.len() == 9);
    assert("image/gif"@.len() == 9);
    assert("image/jpg"@.len() == 9);
    assert("video/mp4"@.len() == 9);
    assert("application/octet-stream"@.len() == 24);
    assert("image/jpg"@[6] != "image/png"@[6]);
}

/// An image that already has the requested width comes out of the engine byte for byte:
/// a JPEG, and a PNG on the generic engine, by the width that the generic decoder reads; a
/// PNG on its own engine by the width of its header.
pub proof fn lemma_process_keeps_width(obj: ObjectView, engine: u32, height: u32)
    requires
        obj.content_type == "image/jpeg"@ ==> decoded_size(
            obj.data,
            ImageFormat::Jpeg,
        ) == Ok::<(u32, u32), Seq<char>>((obj.scale, height)),
        obj.content_type == "image/png"@ && engine == 1 ==> decoded_size(
            obj.data,
            ImageFormat::Png,
        ) == Ok::<(u32, u32), Seq<char>>((obj.scale, height)),
        obj.content_type == "image/png"@ && engine != 1 ==> (png_decoded(obj.data)
            matches Ok(img) && img.width == obj.scale),
        obj.content_type == "image/jpeg"@ || obj.content_type == "image/png"@,
    ensures
        processed(obj, engine) == Ok::<ProcessedView, TransformErrorView>(
            ProcessedView::Done(PayloadView { content_type: obj.content_type, data: obj.data }),
        ),
{
    lemma_media_types_differ();
}

/// Wraps a resizer's answer as a finished rendition of this media type.
fn finished(content_type: &str, r: Result<Vec<u8>, TransformError>) -> (out: Result<
    Processed,
    TransformError,
>)
    ensures
        outcome_view(out) == done(content_type@, rendition_view(r)),
{
    match r {
        Ok(data) => Ok(Processed::Done(Payload { content_type: content_type.to_owned(), data })),
        Err(e) => Err(e),
    }
}

/// The rendition of a drawn SVG: the PNG goes through the generic resizer.
pub fn finish_svg(png: &[u8], scale: u32) -> (r: Result<Processed, TransformError>)
    ensures
        outcome_view(r) == done("image/png"@, static_resized(png@, scale, ImageFormat::Png)),
{
    finished("image/png", resize_static(png, scale, ImageFormat::Png))
}

impl Object {
    /// Makes the rendition of the bytes at hand for the requested width, or says which tool
    /// outside the process is to make it: see [`processed`].
    ///
    /// An SVG is drawn as a PNG first, which then goes through the generic resizer as
    /// [`finish_svg`] says; a failure to draw it is the renderer's error.
    pub fn process(&self, engine: u32) -> (r: Result<Processed, TransformError>)
        ensures
            !is_open_type(self.content_type@) ==> outcome_view(r) == processed(self@, engine),
            is_open_type(self.content_type@) ==> svg_outcome(outcome_view(r), self.scale),
    {
        proof {
            lemma_media_types_differ();
        }
        let ct = self.content_type.as_str();
        let data = self.data.as_slice();
        if str_eq(ct, "image/jpeg") || str_eq(ct, "image/jpg") {
            finished("image/jpeg", resize_static(data, self.scale, ImageFormat::Jpeg))
        } else if str_eq(ct, "image/png") {
            if engine == 1 {
                finished("image/png", resize_static(data, self.scale, ImageFormat::Png))
            } else {
                finished("image/png", resize_png(data, self.scale))
            }
        } else if str_eq(ct, "image/webp") {
            finished("image/webp", resize_webp(data, self.scale, is_webp_animated(data)))
        } else if str_eq(ct, "image/gif") {
            match resize_gif(data, self.scale) {
                ExternalPlan::Keep => Ok(
                    Processed::Done(
                        Payload { content_type: "image/gif".to_owned(), data: copy_bytes(data) },
                    ),
                ),
                ExternalPlan::Run(width, height) => Ok(Processed::Gifsicle { width, height }),
            }
        } else if str_eq(ct, "image/svg+xml") {
            match svg_to_png(data) {
                Err(e) => {
                    let r: Result<Processed, TransformError> = Err(e);
                    assert(svg_outcome(outcome_view(r), self.scale));
                    r
                },
                Ok(png) => {
                    let r = finish_svg(png.as_slice(), self.scale);
                    assert(outcome_view(r) == done(
                        "image/png"@,
                        static_resized(png@, self.scale, ImageFormat::Png),
                    ));
                    assert(svg_outcome(outcome_view(r), self.scale));
                    r
                },
            }
        } else if str_eq(ct, "video/mp4") {
            Ok(Processed::ProbeVideo)
        } else if str_eq(ct, "application/octet-stream") {
            Ok(Processed::Guess)
        } else {
            Ok(
                Processed::Done(
                    Payload { content_type: self.content_type.clone(), data: copy_bytes(data) },
                ),
            )
        }
    }

    /// The rendition once a tool outside the process has had its turn: the tool's output as
    /// a GIF, or the bytes at hand where the tool failed or nothing was asked of it.
    pub fn finish_external(&self, output: Option<Vec<u8>>) -> (r: Payload)
        ensures
            r@.content_type == "image/gif"@,
            r@.data == match output {
                Some(bytes) => bytes@,
                None => self.data@,
            },
    {
        let data = match output {
            Some(bytes) => bytes,
            None => copy_bytes(self.data.as_slice()),
        };
        Payload { content_type: "image/gif".to_owned(), data }
    }

    /// The rendition of an unknown binary type once its type has been guessed: the bytes at
    /// hand under the guessed type, or as unknown binary data still where the guess failed.
    pub fn finish_guess(&self, guessed: Option<String>) -> (r: Payload)
        ensures
            r@.data == self.data@,
            r@.content_type == local_type(optional_text(guessed)),
    {
        let content_type = match guessed {
            Some(t) => t,
            None => "application/octet-stream".to_owned(),
        };
        Payload { content_type, data: copy_bytes(self.data.as_slice()) }
    }
}

} // verus!
