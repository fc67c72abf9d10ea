//! The command lines of the external encoder.
//!
//! The pipeline spawns one binary for every media operation.  This module
//! is the only place that builds its argument lists, so the orchestrators
//! never assemble argv strings themselves.

use vstd::prelude::*;

use crate::text::{fmt_i32, int_digits};

verus! {

/// The views of the arguments.
pub open spec fn argv(args: Seq<String>) -> Seq<Seq<char>> {
    args.map_values(|a: String| a@)
}

/// The default program the pipeline spawns.
pub fn tool_program() -> (r: &'static str)
    ensures
        r@ == "../scripts/popy.py"@,
{
    "../scripts/popy.py"
}

/// The arguments of a grain production.
pub fn produce_gos_args(capsule_id: i32, gos_id: i32) -> (r: Vec<String>)
    ensures
        argv(r@) =~= seq![
            "produce"@,
            "gos"@,
            "-c"@,
            int_digits(capsule_id as int),
            "-g"@,
            int_digits(gos_id as int),
        ],
{
    let mut r: Vec<String> = Vec::new();
    r.push("produce".to_owned());
    r.push("gos".to_owned());
    r.push("-c".to_owned());
    r.push(fmt_i32(capsule_id));
    r.push("-g".to_owned());
    r.push(fmt_i32(gos_id));
    r
}

/// The arguments of a full-capsule production.
pub fn produce_capsule_args(capsule_id: i32) -> (r: Vec<String>)
    ensures
        argv(r@) =~= seq!["produce"@, "capsule"@, "-c"@, int_digits(capsule_id as int)],
{
    let mut r: Vec<String> = Vec::new();
    r.push("produce".to_owned());
    r.push("capsule".to_owned());
    r.push("-c".to_owned());
    r.push(fmt_i32(capsule_id));
    r
}

/// The arguments of a publication; `-p` is passed exactly when the prompt
/// is used as subtitles.
pub fn publish_args(input: &str, output: &str, capsule_id: i32, prompt_subtitles: bool) -> (r: Vec<
    String,
>)
    ensures
        argv(r@) =~= (if prompt_subtitles {
            seq![
                "publish"@,
                "-i"@,
                input@,
                "-o"@,
                output@,
                "-c"@,
                int_digits(capsule_id as int),
                "-p"@,
            ]
        } else {
            seq!["publish"@, "-i"@, input@, "-o"@, output@, "-c"@, int_digits(capsule_id as int)]
        }),
{
    let mut r: Vec<String> = Vec::new();
    r.push("publish".to_owned());
    r.push("-i".to_owned());
    r.push(input.to_owned());
    r.push("-o".to_owned());
    r.push(output.to_owned());
    r.push("-c".to_owned());
    r.push(fmt_i32(capsule_id));
    if prompt_subtitles {
        r.push("-p".to_owned());
    }
    r
}

/// The arguments of the duration probe.
pub fn duration_args(path: &str) -> (r: Vec<String>)
    ensures
        argv(r@) =~= seq!["duration"@, "-f"@, path@],
{
    let mut r: Vec<String> = Vec::new();
    r.push("duration".to_owned());
    r.push("-f".to_owned());
    r.push(path.to_owned());
    r
}

/// The arguments of a slide conversion.
pub fn convert_pdf2webp_args(input: &str, output: &str, density: &str, size: &str) -> (r: Vec<
    String,
>)
    ensures
        argv(r@) =~= seq![
            "convert"@,
            "pdf2webp"@,
            "-i"@,
            input@,
            "-o"@,
            output@,
            "-d"@,
            density@,
            "-s"@,
            size@,
        ],
{
    let mut r: Vec<String> = Vec::new();
    r.push("convert".to_owned());
    r.push("pdf2webp".to_owned());
    r.push("-i".to_owned());
    r.push(input.to_owned());
    r.push("-o".to_owned());
    r.push(output.to_owned());
    r.push("-d".to_owned());
    r.push(density.to_owned());
    r.push("-s".to_owned());
    r.push(size.to_owned());
    r
}

/// The arguments of a record normalization.
pub fn convert_record_args(capsule_id: i32, uuid: &crate::ids::Uuid) -> (r: Vec<String>)
    ensures
        argv(r@) =~= seq![
            "convert"@,
            "record"@,
            "-c"@,
            int_digits(capsule_id as int),
            "-u"@,
            crate::ids::uuid_str(*uuid),
        ],
{
    let mut r: Vec<String> = Vec::new();
    r.push("convert".to_owned());
    r.push("record".to_owned());
    r.push("-c".to_owned());
    r.push(fmt_i32(capsule_id));
    r.push("-u".to_owned());
    r.push(uuid.format());
    r
}

/// The arguments of an extra-video normalization.
pub fn convert_video_args(input: &str, output: &str) -> (r: Vec<String>)
    ensures
        argv(r@) =~= seq!["convert"@, "video"@, "-i"@, input@, "-o"@, output@],
{
    let mut r: Vec<String> = Vec::new();
    r.push("convert".to_owned());
    r.push("video".to_owned());
    r.push("-i".to_owned());
    r.push(input.to_owned());
    r.push("-o".to_owned());
    r.push(output.to_owned());
    r
}

/// The arguments of a sound-track normalization.
pub fn convert_audio_args(input: &str, output: &str) -> (r: Vec<String>)
    ensures
        argv(r@) =~= seq!["convert"@, "audio"@, "-i"@, input@, "-o"@, output@],
{
    let mut r: Vec<String> = Vec::new();
    r.push("convert".to_owned());
    r.push("audio".to_owned());
    r.push("-i".to_owned());
    r.push(input.to_owned());
    r.push("-o".to_owned());
    r.push(output.to_owned());
    r
}

} // verus!
