//! Resolution of the `ffprobe` executable's path and interpretation of the
//! probe invocations that use it.

use vstd::prelude::*;

use crate::command::FfprobeCommand;

verus! {

/// Why a locator or probe operation failed.
#[derive(Clone, Copy, Debug, PartialEq, Eq, Structural)]
pub enum ProbeError {
    /// The running executable's path has no parent directory, so no sidecar
    /// path can be formed next to it.
    NoParent,
    /// The probe process could not be launched.
    LaunchFailed,
    /// The probe process's captured output was not valid UTF-8.
    InvalidUtf8,
}

/// The path under which `ffprobe` is launched: either a concrete sidecar
/// path next to the running executable, or a bare name left to the system's
/// executable search mechanism at launch time.
#[derive(Debug, PartialEq)]
pub enum EffectivePath {
    /// An existing binary adjacent to the running executable.
    Sidecar(String),
    /// A bare executable name, resolved through the search path by the OS.
    SystemSearch(String),
}

impl EffectivePath {
    /// The characters of the path, whichever way it was resolved.
    pub open spec fn path_spec(&self) -> Seq<char> {
        match self {
            EffectivePath::Sidecar(p) => p@,
            EffectivePath::SystemSearch(n) => n@,
        }
    }

    /// The path as a string slice, ready to hand to a process launch.
    pub fn path_str(&self) -> (r: &str)
        ensures
            r@ == self.path_spec(),
    {
        match self {
            EffectivePath::Sidecar(p) => p.as_str(),
            EffectivePath::SystemSearch(n) => n.as_str(),
        }
    }
}

/// Whether `c` separates path components.  Forward slashes do on every
/// platform; backslashes only on Windows-family platforms.
pub open spec fn is_separator(c: char, windows: bool) -> bool {
    c == '/' || (windows && c == '\\')
}

/// Index of the last separator in `path`, or `-1` when it has none.
pub open spec fn last_separator(path: Seq<char>, windows: bool) -> int
    decreases path.len(),
{
    if path.len() == 0 {
        -1
    } else if is_separator(path.last(), windows) {
        path.len() - 1
    } else {
        last_separator(path.drop_last(), windows)
    }
}

/// Whether `path` names anything below a directory, so that a sibling file
/// can be placed next to it.
pub open spec fn has_parent(path: Seq<char>, windows: bool) -> bool {
    last_separator(path, windows) >= 0
}

/// The extension the sidecar binary's name carries: `.exe` on
/// Windows-family platforms, nothing elsewhere.
pub open spec fn sidecar_extension(windows: bool) -> Seq<char> {
    if windows {
        ".exe"@
    } else {
        Seq::<char>::empty()
    }
}

/// The sidecar path formed from the running executable's path `exe`: the
/// final path component is replaced by `ffprobe`, with the platform's
/// extension.
pub open spec fn sidecar_of(exe: Seq<char>, windows: bool) -> Seq<char>
    recommends
        has_parent(exe, windows),
{
    exe.subrange(0, last_separator(exe, windows) + 1) + "ffprobe"@ + sidecar_extension(windows)
}

/// `last_separator` finds a separator, and nothing after it is one.
pub proof fn lemma_last_separator(path: Seq<char>, windows: bool)
    ensures
        -1 <= last_separator(path, windows) < path.len(),
        last_separator(path, windows) >= 0 ==> is_separator(
            path[last_separator(path, windows)],
            windows,
        ),
        forall|j: int|
            last_separator(path, windows) < j < path.len() ==> !is_separator(
                #[trigger] path[j],
                windows,
            ),
    decreases path.len(),
{
    if path.len() == 0 {
    } else if is_separator(path.last(), windows) {
    } else {
        lemma_last_separator(path.drop_last(), windows);
        assert forall|j: int|
            last_separator(path, windows) < j < path.len() implies !is_separator(
            #[trigger] path[j],
            windows,
        ) by {
            if j < path.len() - 1 {
                assert(path.drop_last()[j] == path[j]);
            }
        }
    }
}

/// Appending separator-free characters does not move the last separator.
proof fn lemma_last_separator_append(a: Seq<char>, b: Seq<char>, windows: bool)
    requires
        forall|j: int| 0 <= j < b.len() ==> !is_separator(#[trigger] b[j], windows),
    ensures
        last_separator(a + b, windows) == last_separator(a, windows),
    decreases b.len(),
{
    if b.len() == 0 {
        assert(a + b =~= a);
    } else {
        assert((a + b).last() == b.last());
        assert((a + b).drop_last() =~= a + b.drop_last());
        assert forall|j: int| 0 <= j < b.drop_last().len() implies !is_separator(
            #[trigger] b.drop_last()[j],
            windows,
        ) by {
            assert(b.drop_last()[j] == b[j]);
        }
        lemma_last_separator_append(a, b.drop_last(), windows);
    }
}

/// The (expected) path of an `ffprobe` binary adjacent to the running
/// executable, whose own path is `exe_path`: the executable's final path
/// component is replaced by `ffprobe`, with the extension forced to `.exe`
/// on Windows-family platforms (`windows` true) and left empty elsewhere.
/// The computed path is not checked for existence.  When `exe_path` has no
/// parent directory there is no place for a sidecar, and that is the one
/// error.
pub fn ffprobe_sidecar_path(exe_path: &str, windows: bool) -> (r: Result<String, ProbeError>)
    ensures
        r is Ok <==> has_parent(exe_path@, windows),
        r matches Ok(p) ==> p@ == sidecar_of(exe_path@, windows),
        r matches Err(e) ==> e == ProbeError::NoParent,
{
    let len = exe_path.unicode_len();
    let mut i: usize = len;
    while i > 0
        invariant
            i <= len,
            len == exe_path@.len(),
            forall|j: int| i <= j < len ==> !is_separator(#[trigger] exe_path@[j], windows),
        decreases i,
    {
        let c = exe_path.get_char(i - 1);
        if c == '/' || (windows && c == '\\') {
            proof {
                lemma_last_separator(exe_path@, windows);
                assert(last_separator(exe_path@, windows) == i - 1);
            }
            let dir = exe_path.substring_char(0, i);
            let mut out = dir.to_owned();
            out.append("ffprobe");
            if windows {
                out.append(".exe");
            }
            proof {
                assert(out@ =~= sidecar_of(exe_path@, windows));
            }
            return Ok(out);
        }
        i = i - 1;
    }
    proof {
        lemma_last_separator(exe_path@, windows);
    }
    Err(ProbeError::NoParent)
}

/// The path under which `ffprobe` is to be launched, given how sidecar
/// resolution went.  `sidecar` is the computed sidecar path, or `None` when
/// it could not be computed at all; `sidecar_exists` says whether a
/// filesystem entry was found at that path.  A sidecar that was resolved and
/// exists is used exactly as computed; in every other case the bare name
/// `ffprobe` is returned for the system's executable search.  This decision
/// cannot fail: internal resolution errors only mean falling back.
pub fn ffprobe_path(sidecar: Option<String>, sidecar_exists: bool) -> (r: EffectivePath)
    ensures
        match sidecar {
            Some(p) => if sidecar_exists {
                r == EffectivePath::Sidecar(p)
            } else {
                (r matches EffectivePath::SystemSearch(n) && n@ == "ffprobe"@)
            },
            None => (r matches EffectivePath::SystemSearch(n) && n@ == "ffprobe"@),
        },
{
    match sidecar {
        Some(p) => if sidecar_exists {
            EffectivePath::Sidecar(p)
        } else {
            EffectivePath::SystemSearch("ffprobe".to_owned())
        },
        None => EffectivePath::SystemSearch("ffprobe".to_owned()),
    }
}

/// Whether an installation check that observed `status` counts as installed:
/// `status` is the exit outcome of launching the effective path with
/// `-version` (`None` when the process could not be launched at all, else
/// whether it exited successfully).  Every failure to launch answers `false`;
/// nothing is propagated.
pub fn ffprobe_is_installed(status: Option<bool>) -> (r: bool)
    ensures
        r <==> status == Some(true),
{
    match status {
        Some(success) => success,
        None => false,
    }
}

/// The invocation that both the installation check and the version query
/// launch: the effective path with the single argument `-version`, console
/// window suppressed.
pub fn version_command(path: &EffectivePath) -> (r: FfprobeCommand)
    ensures
        r.program@ == path.path_spec(),
        r.args_spec() == seq!["-version"@],
        r.no_window,
{
    let mut c = FfprobeCommand::new(path.path_str().to_owned());
    c.arg("-version");
    proof {
        assert(c.args_spec() =~= seq!["-version"@]);
    }
    c
}

/// Relies on `String::from_utf8`: it returns `Ok` exactly when the bytes are
/// valid UTF-8, and the string then holds their decoding.
#[verifier::external_body]
fn string_from_utf8(bytes: Vec<u8>) -> (r: Option<String>)
    ensures
        r is Some <==> vstd::utf8::valid_utf8(bytes@),
        r matches Some(text) ==> text@ == vstd::utf8::decode_utf8(bytes@),
{
    String::from_utf8(bytes).ok()
}

/// What a version query returns for each way its launch can have gone:
/// a launch that failed reports so; captured bytes that are valid UTF-8 come
/// back decoded, exactly; captured bytes that are not valid UTF-8 are a
/// decode error.
pub open spec fn probe_outcome(captured: Option<Vec<u8>>, r: Result<String, ProbeError>) -> bool {
    match captured {
        None => r == Err::<String, ProbeError>(ProbeError::LaunchFailed),
        Some(bytes) => if vstd::utf8::valid_utf8(bytes@) {
            (r matches Ok(text) && text@ == vstd::utf8::decode_utf8(bytes@))
        } else {
            r == Err::<String, ProbeError>(ProbeError::InvalidUtf8)
        },
    }
}

/// The version text a probe invocation yielded.  `captured` is what came of
/// launching the effective path with `-version` and capturing standard
/// output: `None` when the process could not be launched, else the captured
/// bytes, whatever the exit status.  The bytes are returned decoded as text,
/// unparsed and unmodified: `ffprobe` prints a banner, not a bare version
/// number, and no structure is read into it.  Each failure point keeps its
/// own error: launching and decoding are told apart.
pub fn ffprobe_version_with_path(captured: Option<Vec<u8>>) -> (r: Result<String, ProbeError>)
    ensures
        probe_outcome(captured, r),
{
    match captured {
        None => Err(ProbeError::LaunchFailed),
        Some(bytes) => match string_from_utf8(bytes) {
            Some(text) => Ok(text),
            None => Err(ProbeError::InvalidUtf8),
        },
    }
}

/// The version text of the `ffprobe` installation the effective path names.
/// The caller resolves the effective path, launches it with `-version`
/// (`version_command` says how) and hands over what came back; this is
/// `ffprobe_version_with_path` under the default, effective, path.
pub fn ffprobe_version(captured: Option<Vec<u8>>) -> (r: Result<String, ProbeError>)
    ensures
        probe_outcome(captured, r),
{
    ffprobe_version_with_path(captured)
}

/// The file name of `path`: everything after its last separator, or all of
/// `path` when it has none.
pub open spec fn file_name_of(path: Seq<char>, windows: bool) -> Seq<char> {
    path.subrange(last_separator(path, windows) + 1, path.len() as int)
}

/// Index of the last dot in a file name, or `-1` when it has none.
pub open spec fn last_dot(name: Seq<char>) -> int
    decreases name.len(),
{
    if name.len() == 0 {
        -1
    } else if name.last() == '.' {
        name.len() - 1
    } else {
        last_dot(name.drop_last())
    }
}

/// The stem of a file name: what stands before its last dot, or the whole
/// name when it has no dot.
pub open spec fn stem_of(name: Seq<char>) -> Seq<char> {
    if last_dot(name) >= 0 {
        name.subrange(0, last_dot(name))
    } else {
        name
    }
}

/// The extension of a file name: what stands after its last dot, or nothing
/// when it has no dot.
pub open spec fn extension_of(name: Seq<char>) -> Seq<char> {
    if last_dot(name) >= 0 {
        name.subrange(last_dot(name) + 1, name.len() as int)
    } else {
        Seq::<char>::empty()
    }
}

/// `last_dot` finds a dot, and nothing after it is one.
proof fn lemma_last_dot(name: Seq<char>)
    ensures
        -1 <= last_dot(name) < name.len(),
        last_dot(name) >= 0 ==> name[last_dot(name)] == '.',
        forall|j: int| last_dot(name) < j < name.len() ==> #[trigger] name[j] != '.',
    decreases name.len(),
{
    if name.len() == 0 {
    } else if name.last() == '.' {
    } else {
        lemma_last_dot(name.drop_last());
        assert forall|j: int| last_dot(name) < j < name.len() implies #[trigger] name[j]
            != '.' by {
            if j < name.len() - 1 {
                assert(name.drop_last()[j] == name[j]);
            }
        }
    }
}

/// Law: on every platform, the sidecar path's file name has the stem
/// `ffprobe` exactly, and its extension is `exe` on Windows-family
/// platforms and empty elsewhere.
pub proof fn lemma_sidecar_file_name(exe: Seq<char>, windows: bool)
    requires
        has_parent(exe, windows),
    ensures
        stem_of(file_name_of(sidecar_of(exe, windows), windows)) == "ffprobe"@,
        windows ==> extension_of(file_name_of(sidecar_of(exe, windows), windows)) == "exe"@,
        !windows ==> extension_of(file_name_of(sidecar_of(exe, windows), windows))
            == Seq::<char>::empty(),
{
    reveal_strlit("ffprobe");
    reveal_strlit(".exe");
    reveal_strlit("exe");
    assert("ffprobe"@ =~= seq!['f', 'f', 'p', 'r', 'o', 'b', 'e']);
    assert(".exe"@ =~= seq!['.', 'e', 'x', 'e']);
    assert("exe"@ =~= seq!['e', 'x', 'e']);
    let ls = last_separator(exe, windows);
    lemma_last_separator(exe, windows);
    let prefix = exe.subrange(0, ls + 1);
    let name = "ffprobe"@ + sidecar_extension(windows);
    let side = sidecar_of(exe, windows);
    assert(side =~= prefix + name);
    assert forall|j: int| 0 <= j < name.len() implies !is_separator(
        #[trigger] name[j],
        windows,
    ) by {
        if j < 7 {
            assert(name[j] == "ffprobe"@[j]);
        } else {
            assert(name[j] == ".exe"@[j - 7]);
        }
    }
    lemma_last_separator_append(prefix, name, windows);
    assert(prefix.last() == exe[ls]);
    assert(is_separator(prefix.last(), windows));
    assert(last_separator(prefix, windows) == ls);
    assert(last_separator(side, windows) == ls);
    assert(file_name_of(side, windows) =~= name);
    lemma_last_dot(name);
    if windows {
        assert(name[7] == '.');
        assert(last_dot(name) == 7);
        assert(stem_of(name) =~= "ffprobe"@);
        assert(extension_of(name) =~= "exe"@);
    } else {
        assert(name =~= "ffprobe"@);
        assert forall|j: int| 0 <= j < name.len() implies #[trigger] name[j] != '.' by {}
        assert(last_dot(name) == -1);
        assert(stem_of(name) == name);
    }
}

} // verus!
