use vstd::prelude::*;

verus! {

/// What `std::path::Path::parent` gives for `path`, as text.
pub uninterp spec fn path_parent(path: Seq<char>) -> Option<Seq<char>>;

/// What `std::path::Path::file_stem` gives for `path`, as text.
pub uninterp spec fn path_file_stem(path: Seq<char>) -> Option<Seq<char>>;

/// What `std::path::Path::join` gives for `base` and `name`, as text.
pub uninterp spec fn path_joined(base: Seq<char>, name: Seq<char>) -> Seq<char>;

/// The text held by an optional string.
pub open spec fn text_of(value: Option<String>) -> Option<Seq<char>> {
    match value {
        Some(s) => Some(s@),
        None => None,
    }
}

/// `std::path::Path::parent` on `path`: the path without its last
/// component, if it has one. The contract names the result only.
#[verifier::external_body]
fn parent_of(path: &str) -> (parent: Option<String>)
    ensures
        text_of(parent) == path_parent(path@),
{
    std::path::Path::new(path).parent().map(|p| p.to_string_lossy().into_owned())
}

/// `std::path::Path::file_stem` on `path`: the file name without its last
/// extension, if there is a file name. The contract names the result only.
#[verifier::external_body]
fn file_stem_of(path: &str) -> (stem: Option<String>)
    ensures
        text_of(stem) == path_file_stem(path@),
{
    std::path::Path::new(path).file_stem().map(|s| s.to_string_lossy().into_owned())
}

/// `std::path::Path::join` of `name` onto `base`. The contract names the
/// result only.
#[verifier::external_body]
fn joined(base: &str, name: &str) -> (path: String)
    ensures
        path@ == path_joined(base@, name@),
{
    std::path::Path::new(base).join(name).to_string_lossy().into_owned()
}

/// The directory of the trace log from the output's parent: that parent,
/// or the current directory when the output has none.
pub open spec fn spec_trace_log_directory(parent: Option<Seq<char>>) -> Seq<char> {
    match parent {
        Some(p) => p,
        None => "."@,
    }
}

/// The file name of the trace log from the output's file stem: the stem,
/// or `servo-ranges` when there is none or it is empty, with the extension
/// `.trace.log`.
pub open spec fn spec_trace_log_file_name(stem: Option<Seq<char>>) -> Seq<char> {
    let base = match stem {
        Some(s) => if s.len() > 0 { s } else { "servo-ranges"@ },
        None => "servo-ranges"@,
    };
    base + ".trace.log"@
}

/// Where the range scan writes its trace log: the requested path, or else a
/// file named after the output's stem next to the output.
pub open spec fn spec_trace_output_path(trace_output: Option<Seq<char>>, output: Seq<char>) -> Seq<char> {
    match trace_output {
        Some(t) => t,
        None => path_joined(
            spec_trace_log_directory(path_parent(output)),
            spec_trace_log_file_name(path_file_stem(output)),
        ),
    }
}

/// The directory of the trace log from the output's parent (see
/// `spec_trace_log_directory`).
pub fn trace_log_directory(parent: Option<String>) -> (dir: String)
    ensures
        dir@ == spec_trace_log_directory(text_of(parent)),
{
    match parent {
        Some(p) => p,
        None => {
            let mut dir = String::new();
            dir.append(".");
            proof { assert(dir@ =~= "."@); }
            dir
        },
    }
}

/// The file name of the trace log from the output's file stem (see
/// `spec_trace_log_file_name`).
pub fn trace_log_file_name(stem: Option<String>) -> (name: String)
    ensures
        name@ == spec_trace_log_file_name(text_of(stem)),
{
    let mut name = String::new();
    match &stem {
        Some(s) if !s.as_str().is_empty() => name.append(s.as_str()),
        _ => name.append("servo-ranges"),
    }
    name.append(".trace.log");
    proof { assert(name@ =~= spec_trace_log_file_name(text_of(stem))); }
    name
}

/// Where the range scan writes its trace log: `trace_output` when given,
/// else `<stem>.trace.log` in the directory of `output`.
pub fn trace_output_path(trace_output: Option<String>, output: &str) -> (path: String)
    ensures
        path@ == spec_trace_output_path(text_of(trace_output), output@),
{
    match trace_output {
        Some(t) => t,
        None => {
            let dir = trace_log_directory(parent_of(output));
            let name = trace_log_file_name(file_stem_of(output));
            joined(dir.as_str(), name.as_str())
        },
    }
}

} // verus!
