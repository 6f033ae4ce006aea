//! The resource layer's decision logic: resolving resource names to paths,
//! the shader naming convention, filtering filesystem-watch events, checking
//! text resources, and listing model files.
//!
//! The shell owns the actual directory handle, the watch thread and the file
//! reads; everything here works on the plain values they produce.

use vstd::prelude::*;
use vstd::string::StrSliceExecFns;
use vstd::string::StringExecFns;

verus! {

/// Equality of two strings, decided character by character.
pub fn str_eq(a: &str, b: &str) -> (r: bool)
    ensures
        r == (a@ == b@),
{
    let la = a.unicode_len();
    let lb = b.unicode_len();
    if la != lb {
        return false;
    }
    let mut i: usize = 0;
    while i < la
        invariant
            0 <= i <= la,
            la == a@.len(),
            la == b@.len(),
            forall|k: int| 0 <= k < i ==> a@[k] == b@[k],
        decreases la - i,
    {
        if a.get_char(i) != b.get_char(i) {
            return false;
        }
        i += 1;
    }
    proof {
        assert(a@ =~= b@);
    }
    true
}

/// Whether `s` ends in `suffix`, at the specification level.
pub open spec fn spec_ends_with(s: Seq<char>, suffix: Seq<char>) -> bool {
    s.len() >= suffix.len() && s.subrange(s.len() - suffix.len(), s.len() as int) == suffix
}

/// Whether `s` ends in `suffix`, decided character by character.
pub fn str_ends_with(s: &str, suffix: &str) -> (r: bool)
    ensures
        r == spec_ends_with(s@, suffix@),
{
    let ls = s.unicode_len();
    let lf = suffix.unicode_len();
    if lf > ls {
        return false;
    }
    let start = ls - lf;
    let mut k: usize = 0;
    while k < lf
        invariant
            0 <= k <= lf,
            ls == s@.len(),
            lf == suffix@.len(),
            lf <= ls,
            start == ls - lf,
            forall|t: int| 0 <= t < k ==> s@[start + t] == suffix@[t],
        decreases lf - k,
    {
        if s.get_char(start + k) != suffix.get_char(k) {
            proof {
                assert(s@.subrange(s@.len() - suffix@.len(), s@.len() as int)[k as int] == s@[
                    start + k]);
            }
            return false;
        }
        k += 1;
    }
    proof {
        assert(s@.subrange(s@.len() - suffix@.len(), s@.len() as int) =~= suffix@);
    }
    true
}

/// Joins a location string to a root directory path. Each `/`-separated part
/// of the location lands under the root, with `/` as the separator.
pub fn resource_name_to_path(root_dir: &str, location: &str) -> (path: String)
    ensures
        path@ == root_dir@ + "/"@ + location@,
{
    let mut path: String = root_dir.to_owned();
    path.append("/");
    path.append(location);
    path
}

/// The file extension of each shader stage.
#[derive(Debug, Clone, Copy, PartialEq, Eq, Structural)]
pub enum ShaderKind {
    Vertex,
    Fragment,
}

/// The two stage files a shader's logical name resolves to: the vertex-stage
/// file and the fragment-stage file.
pub fn shader_stage_paths(name: &str) -> (r: (String, String))
    ensures
        r.0@ == name@ + ".vert"@,
        r.1@ == name@ + ".frag"@,
{
    let mut vert: String = name.to_owned();
    vert.append(".vert");
    let mut frag: String = name.to_owned();
    frag.append(".frag");
    (vert, frag)
}

/// Which shader stage a resource name belongs to, from its extension; vertex
/// is checked first, as the stage list is ordered.
pub fn shader_kind_for_name(name: &str) -> (r: Option<ShaderKind>)
    ensures
        spec_ends_with(name@, ".vert"@) ==> r is Some && r->0 is Vertex,
        !spec_ends_with(name@, ".vert"@) && spec_ends_with(name@, ".frag"@) ==> r is Some
            && r->0 is Fragment,
        !spec_ends_with(name@, ".vert"@) && !spec_ends_with(name@, ".frag"@) ==> r is None,
{
    if str_ends_with(name, ".vert") {
        Some(ShaderKind::Vertex)
    } else if str_ends_with(name, ".frag") {
        Some(ShaderKind::Fragment)
    } else {
        None
    }
}

/// Whether a loaded text resource holds a NUL byte, which a C string cannot
/// carry.
pub fn contains_nul(bytes: &Vec<u8>) -> (r: bool)
    ensures
        r == bytes@.contains(0u8),
{
    let mut i: usize = 0;
    while i < bytes.len()
        invariant
            0 <= i <= bytes@.len(),
            forall|k: int| 0 <= k < i ==> bytes@[k] != 0u8,
        decreases bytes@.len() - i,
    {
        if bytes[i] == 0 {
            return true;
        }
        i += 1;
    }
    proof {
        assert(!bytes@.contains(0u8));
    }
    false
}

/// One poll of the filesystem-watch channel, as the shell drains it.
#[derive(Debug)]
pub enum WatchPoll {
    /// A modify-kind event, with the paths it names.
    Modified(Vec<String>),
    /// Any other watch event.
    OtherEvent,
    /// Nothing buffered this frame.
    Empty,
    /// The watch channel reported an error; treated as no update.
    ChannelError,
}

/// Lists the changed files one poll reports: the paths of a modify-kind
/// event, and nothing for any other outcome.
pub fn updated_paths(poll: WatchPoll) -> (r: Vec<String>)
    ensures
        poll is Modified ==> r == poll->Modified_0,
        !(poll is Modified) ==> r@.len() == 0,
{
    match poll {
        WatchPoll::Modified(paths) => paths,
        _ => Vec::new(),
    }
}

/// Whether a directory entry names a model file: it ends in `.obj`.
pub open spec fn spec_is_obj_name(s: Seq<char>) -> bool {
    s.len() >= 4 && s.subrange(s.len() - 4, s.len() as int) == ".obj"@
}

/// A name with every trailing `.obj` repetition removed.
pub open spec fn spec_strip_obj(s: Seq<char>) -> Seq<char>
    decreases s.len(),
{
    if spec_is_obj_name(s) {
        spec_strip_obj(s.subrange(0, s.len() - 4))
    } else {
        s
    }
}

/// The model names among a list of directory entries, in order: each entry
/// ending in `.obj`, with its trailing `.obj` repetitions removed.
pub open spec fn spec_model_names(entries: Seq<Seq<char>>) -> Seq<Seq<char>>
    decreases entries.len(),
{
    if entries.len() == 0 {
        Seq::<Seq<char>>::empty()
    } else {
        spec_model_names(entries.drop_last()) + (if spec_is_obj_name(entries.last()) {
            seq![spec_strip_obj(entries.last())]
        } else {
            Seq::<Seq<char>>::empty()
        })
    }
}

/// Remove every trailing `.obj` repetition from a name.
fn strip_obj(name: &str) -> (r: String)
    ensures
        r@ == spec_strip_obj(name@),
{
    proof {
        reveal_strlit(".obj");
    }
    let mut s: String = name.to_owned();
    loop
        invariant
            spec_strip_obj(s@) == spec_strip_obj(name@),
        ensures
            spec_strip_obj(s@) == spec_strip_obj(name@),
            !spec_is_obj_name(s@),
        decreases s@.len(),
    {
        proof {
            reveal_strlit(".obj");
        }
        let ends = str_ends_with(s.as_str(), ".obj");
        if !ends {
            proof {
                assert(!spec_is_obj_name(s@));
            }
            break;
        }
        proof {
            assert(spec_is_obj_name(s@));
        }
        let l = s.as_str().unicode_len();
        s = s.as_str().substring_char(0, l - 4).to_owned();
    }
    proof {
        assert(spec_strip_obj(s@) == s@);
    }
    s
}

/// Lists the model names among the given directory entries: those ending in
/// `.obj`, with the extension removed.
pub fn model_names(entries: &Vec<String>) -> (r: Vec<String>)
    ensures
        r.deep_view() == spec_model_names(entries.deep_view()),
{
    let mut r: Vec<String> = Vec::new();
    let mut i: usize = 0;
    while i < entries.len()
        invariant
            0 <= i <= entries@.len(),
            r.deep_view() == spec_model_names(entries.deep_view().take(i as int)),
        decreases entries@.len() - i,
    {
        let ghost prefix = entries.deep_view().take(i as int);
        let ghost next_prefix = entries.deep_view().take(i as int + 1);
        proof {
            assert(next_prefix.drop_last() =~= prefix);
            assert(next_prefix.last() == entries.deep_view()[i as int]);
        }
        if str_ends_with(entries[i].as_str(), ".obj") {
            proof {
                reveal_strlit(".obj");
                assert(spec_is_obj_name(entries.deep_view()[i as int]));
            }
            let stripped = strip_obj(entries[i].as_str());
            let ghost old_r = r.deep_view();
            r.push(stripped);
            proof {
                assert(r.deep_view() =~= old_r.push(spec_strip_obj(
                    entries.deep_view()[i as int],
                )));
                assert(r.deep_view() =~= spec_model_names(next_prefix));
            }
        } else {
            proof {
                reveal_strlit(".obj");
                assert(!spec_is_obj_name(entries.deep_view()[i as int]));
                assert(r.deep_view() =~= spec_model_names(next_prefix));
            }
        }
        i += 1;
    }
    proof {
        assert(entries.deep_view().take(entries@.len() as int) =~= entries.deep_view());
    }
    r
}

} // verus!
