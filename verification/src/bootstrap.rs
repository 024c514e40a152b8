//! The choices made while fetching ffmpeg and ffprobe on first start: whether
//! to fetch at all, and which entries of the release archive to keep.
use vstd::prelude::*;

verus! {

/// The folder the tools are kept in.
pub open spec fn tools_dir() -> Seq<char> {
    "utils/"@
}

/// The permission bits given to an extracted tool: `rwxr-xr-x`.
pub const TOOL_MODE: u32 = 0o755;

/// The release has to be fetched unless both tools are already in place.
pub fn needs_bootstrap(has_ffmpeg: bool, has_ffprobe: bool) -> (r: bool)
    ensures
        r == !(has_ffmpeg && has_ffprobe),
        !r <==> (has_ffmpeg && has_ffprobe),
{
    !(has_ffmpeg && has_ffprobe)
}

/// Whether an archive entry with this file name is one of the two tools.
pub open spec fn is_tool_name(file_name: Seq<char>) -> bool {
    file_name == "ffmpeg"@ || file_name == "ffprobe"@
}

/// Exactly two entries of the release are tools: `ffmpeg` and `ffprobe`.
pub proof fn lemma_only_ffmpeg_and_ffprobe_are_tools(file_name: Seq<char>)
    ensures
        is_tool_name(file_name) <==> (file_name == "ffmpeg"@ || file_name == "ffprobe"@),
{
}

/// Where an archive entry with this file name is written: `utils/<name>` for
/// `ffmpeg` and `ffprobe`, nowhere (`None`) for every other entry.
pub fn extraction_target(file_name: &str) -> (r: Option<String>)
    ensures
        is_tool_name(file_name@) ==> (r matches Some(p) && p@ == tools_dir() + file_name@),
        !is_tool_name(file_name@) ==> r is None,
        r is Some <==> (file_name@ == "ffmpeg"@ || file_name@ == "ffprobe"@),
        r matches Some(p) ==> p@ == "utils/"@ + file_name@,
{
    let name = file_name.to_string();
    let ffmpeg = "ffmpeg".to_string();
    let ffprobe = "ffprobe".to_string();
    if name == ffmpeg || name == ffprobe {
        let dir = "utils/".to_string();
        Some(dir.concat(file_name))
    } else {
        None
    }
}

} // verus!
