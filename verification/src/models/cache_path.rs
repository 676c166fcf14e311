//! Where the models of a provider are cached on disk, and as which version they are asked for.

use crate::text::joined;
use std::path::{Path, PathBuf};
use vstd::prelude::*;

verus! {

/// The directory that holds the caches of all providers.
pub const MODEL_CACHE_DIR: &'static str = "remote_models";

/// The file that holds the cache of one provider.
pub const MODEL_CACHE_FILE: &'static str = "models_cache.json";

/// A path on disk.
#[verifier::external_type_specification]
#[verifier::external_body]
pub struct ExPathBuf(PathBuf);

/// A borrowed path on disk.
#[verifier::external_type_specification]
#[verifier::external_body]
pub struct ExPath(Path);

/// The components of a borrowed path, as `Path::components` walks them, each as text.
pub uninterp spec fn path_components(path: &Path) -> Seq<Seq<char>>;

/// The components of an owned path, as `Path::components` walks them, each as text.
pub uninterp spec fn path_buf_components(path: PathBuf) -> Seq<Seq<char>>;

/// The text of a borrowed path, as `Path::to_string_lossy` shows it.
pub uninterp spec fn path_text(path: &Path) -> Seq<char>;

/// The text of an owned path, as `Path::to_string_lossy` shows it.
pub uninterp spec fn path_buf_text(path: PathBuf) -> Seq<char>;

/// A name of a directory or file: no separator, no drive letter, and neither of the two names
/// with a meaning of their own.
pub open spec fn ordinary_name(part: Seq<char>) -> bool {
    &&& part.len() > 0
    &&& part != "."@
    &&& part != ".."@
    &&& forall|i: int|
        0 <= i < part.len() ==> part[i] != '/' && part[i] != '\\' && part[i] != ':'
}

/// `PathBuf::as_path` is the same path, borrowed.
pub assume_specification[ PathBuf::as_path ](path: &PathBuf) -> (borrowed: &Path)
    ensures
        path_components(borrowed) == path_buf_components(*path),
        path_text(borrowed) == path_buf_text(*path),
;

/// A name without a separator.
pub open spec fn single_name(name: Seq<char>) -> bool {
    name.len() > 0 && forall|i: int| 0 <= i < name.len() ==> name[i] != '/' && name[i] != '\\'
}

/// The path is relative, or it starts at a drive of Windows or at the root of a Unix system. A
/// single backslash in front of a name is part of it: only Unix has such names.
pub open spec fn starts_plainly(components: Seq<Seq<char>>) -> bool {
    components.len() > 0 && components[0] != "/"@ ==> {
        let first = components[0];
        &&& first.len() > 0
        &&& first[0] != '/'
        &&& first[0] == '\\' ==> first.len() > 1 && first[1] != '/' && first[1] != '\\'
    }
}

/// The path starts at a root of Windows without a drive, and goes on for two names or more. A
/// shorter one may be the beginning of a network share.
pub open spec fn starts_at_root(components: Seq<Seq<char>>) -> bool {
    components.len() >= 3 && components[0] == "\\"@
}

/// The path starts at the root of a network share of Windows: `\\server\share\`.
pub open spec fn starts_at_share(components: Seq<Seq<char>>) -> bool {
    &&& components.len() >= 2
    &&& components[1] == "\\"@
    &&& exists|server: Seq<char>, share: Seq<char>|
        {
            &&& #[trigger] single_name(server)
            &&& #[trigger] single_name(share)
            &&& server != "."@
            &&& server != "?"@
            &&& components[0] == "\\\\"@ + server + "\\"@ + share
        }
}

/// The path starts at a root that Windows takes verbatim: that of a drive, `\\?\C:\`, or that of
/// a network share, `\\?\UNC\server\share\`.
pub open spec fn starts_verbatim(components: Seq<Seq<char>>) -> bool {
    &&& components.len() >= 2
    &&& components[1] == "\\"@
    &&& {
        ||| components[0].len() == 6 && components[0].take(4) == "\\\\?\\"@ && components[0][5] == ':'
        ||| exists|server: Seq<char>, share: Seq<char>|
            {
                &&& #[trigger] single_name(server)
                &&& #[trigger] single_name(share)
                &&& components[0] == "\\\\?\\UNC\\"@ + server + "\\"@ + share
            }
    }
}

/// The path starts in one of these ways. What is left is a root of Windows without a drive that
/// is followed by at most one name, an incomplete, bare or device prefix, and what looks like one
/// of these on Unix.
pub open spec fn starts_known(components: Seq<Seq<char>>) -> bool {
    ||| starts_plainly(components)
    ||| starts_at_root(components)
    ||| starts_at_share(components)
    ||| starts_verbatim(components)
}

/// A character that separates names on Unix or on Windows.
pub open spec fn is_separator(c: char) -> bool {
    c == '/' || c == '\\'
}

/// A name can begin behind this text: it is empty, or ends with a separator or a drive's colon.
pub open spec fn before_a_name(text: Seq<char>) -> bool {
    text.len() > 0 ==> is_separator(text.last()) || text.last() == ':'
}

/// The text of a path ends with this name.
pub open spec fn ends_with_name(text: Seq<char>, name: Seq<char>) -> bool {
    exists|head: Seq<char>| #[trigger] before_a_name(head) && text == head + name
}

/// The text of a path ends with these two names, with a separator in between.
pub open spec fn ends_with_names(text: Seq<char>, first: Seq<char>, second: Seq<char>) -> bool {
    exists|head: Seq<char>, separator: char|
        {
            &&& #[trigger] before_a_name(head)
            &&& #[trigger] is_separator(separator)
            &&& text == head + first + seq![separator] + second
        }
}

/// `Path::join` appends a path to another, on Unix and on Windows. For a base with a known
/// start, an ordinary name is one more component, an empty part leaves the components alone, and
/// so does `.` behind an ordinary name. So is `..` one more component, except that Windows
/// resolves it on a verbatim path: behind an ordinary name it takes that name away. Nothing is
/// said of other parts, of `.` and a verbatim `..` behind anything else, nor of a base with
/// another start: there a part can become part of a prefix. Whatever the base, the text of the
/// outcome ends with an ordinary name that is joined to it, behind a separator and the base's last
/// name where the base's text ends with one.
#[verifier::external_body]
fn join_path(base: &Path, part: &str) -> (path: PathBuf)
    ensures
        ordinary_name(part@) ==> ends_with_name(path_buf_text(path), part@),
        forall|name: Seq<char>| #[trigger]
            ends_with_name(path_text(base), name) && ordinary_name(name) && ordinary_name(part@)
                ==> ends_with_names(path_buf_text(path), name, part@),
        starts_known(path_components(base)) && ordinary_name(part@) ==> path_buf_components(path)
            == path_components(base).push(part@),
        starts_known(path_components(base)) && part@.len() == 0 ==> path_buf_components(path)
            == path_components(base),
        starts_known(path_components(base)) && part@ == "."@ && path_components(base).len() > 0
            && ordinary_name(path_components(base).last()) ==> path_buf_components(path)
            == path_components(base),
        starts_known(path_components(base)) && !starts_verbatim(path_components(base)) && part@
            == ".."@ ==> path_buf_components(path) == path_components(base).push(part@),
        starts_verbatim(path_components(base)) && part@ == ".."@ && ordinary_name(
            path_components(base).last(),
        ) ==> {
            ||| path_buf_components(path) == path_components(base).push(part@)
            ||| path_buf_components(path) == path_components(base).drop_last()
        },
{
    base.join(part)
}

/// A character that can stand in the name of a directory everywhere.
pub open spec fn safe_char(c: char) -> bool {
    ||| 'a' <= c <= 'z'
    ||| 'A' <= c <= 'Z'
    ||| '0' <= c <= '9'
    ||| c == '.'
    ||| c == '_'
    ||| c == '-'
}

/// A provider's id as the name of a directory: an underscore for each character that is not safe.
pub open spec fn sanitized(id: Seq<char>) -> Seq<char> {
    id.map_values(
        |c: char|
            if safe_char(c) {
                c
            } else {
                '_'
            },
    )
}

/// Turns a provider's id into the name of a directory.
pub fn sanitize_model_provider_id(model_provider_id: &str) -> (name: String)
    ensures
        name@ == sanitized(model_provider_id@),
{
    let mut name = String::new();
    for c in it: model_provider_id.chars()
        invariant
            it.seq() == model_provider_id@,
            name@ == sanitized(model_provider_id@.take(it.index())),
    {
        let kept = ('a' <= c && c <= 'z') || ('A' <= c && c <= 'Z') || ('0' <= c && c <= '9') || c
            == '.' || c == '_' || c == '-';
        name.push(
            if kept {
                c
            } else {
                '_'
            },
        );
        assert(name@ =~= sanitized(model_provider_id@.take(it.index() + 1)));
    }
    assert(model_provider_id@.take(model_provider_id@.len() as int) =~= model_provider_id@);
    name
}

/// The components of the path of a provider's cache below a directory, where the id makes an
/// ordinary name.
pub open spec fn cache_components(home: Seq<Seq<char>>, id: Seq<char>) -> Seq<Seq<char>> {
    home.push(MODEL_CACHE_DIR@).push(sanitized(id)).push(MODEL_CACHE_FILE@)
}

/// The components of the path of the cache below a directory, where the id names no directory
/// of its own.
pub open spec fn shared_cache_components(home: Seq<Seq<char>>) -> Seq<Seq<char>> {
    home.push(MODEL_CACHE_DIR@).push(MODEL_CACHE_FILE@)
}

/// The id names the directory itself, and no other.
pub open spec fn names_no_directory(id: Seq<char>) -> bool {
    id.len() == 0 || id == "."@
}

/// The components are those of the cache of a provider below a directory. An id that names no
/// directory has no place of its own, and the id `..` may be resolved below a verbatim path.
pub open spec fn is_cache_path(path: Seq<Seq<char>>, home: Seq<Seq<char>>, id: Seq<char>) -> bool {
    if names_no_directory(id) {
        path == shared_cache_components(home)
    } else {
        ||| path == cache_components(home, id)
        ||| id == ".."@ && starts_verbatim(home) && path == home.push(MODEL_CACHE_FILE@)
    }
}

/// The path is that of the cache of a provider below a directory. Its components are known for
/// every directory with a known start. Below any directory the text of the path ends with the
/// directory that the id names, and the file in it.
pub open spec fn is_models_cache_path(
    path: PathBuf,
    home: Seq<Seq<char>>,
    id: Seq<char>,
) -> bool {
    &&& starts_known(home) ==> is_cache_path(path_buf_components(path), home, id)
    &&& !names_no_directory(id) && id != ".."@ ==> ends_with_names(
        path_buf_text(path),
        sanitized(id),
        MODEL_CACHE_FILE@,
    )
}

/// The file in which the models of a provider are cached.
pub fn models_cache_path(codex_home: &Path, model_provider_id: &str) -> (path: PathBuf)
    ensures
        is_models_cache_path(path, path_components(codex_home), model_provider_id@),
{
    proof {
        lemma_fixed_names_are_ordinary();
        lemma_sanitized_is_ordinary(model_provider_id@);
        let home = path_components(codex_home);
        let caches = home.push(MODEL_CACHE_DIR@);
        assert(caches.drop_last() =~= home);
        if starts_known(home) {
            lemma_starts_known(home, MODEL_CACHE_DIR@);
            lemma_starts_known(caches, sanitized(model_provider_id@));
        }
    }
    let caches = join_path(codex_home, MODEL_CACHE_DIR);
    let provider = join_path(caches.as_path(), &sanitize_model_provider_id(model_provider_id));
    join_path(provider.as_path(), MODEL_CACHE_FILE)
}

proof fn lemma_starts_known(components: Seq<Seq<char>>, name: Seq<char>)
    requires
        starts_known(components),
        components.len() > 0 || ordinary_name(name),
    ensures
        starts_known(components.push(name)),
        starts_verbatim(components) ==> starts_verbatim(components.push(name)),
        ordinary_name(name) && starts_verbatim(components.push(name)) ==> starts_verbatim(
            components,
        ),
{
    reveal_strlit("\\");
    let longer = components.push(name);
    if components.len() > 0 {
        assert(longer[0] == components[0]);
    } else {
        assert(longer[0] == name);
    }
    if components.len() > 1 {
        assert(longer[1] == components[1]);
    } else if components.len() == 1 {
        assert(longer[1] == name);
        if ordinary_name(name) {
            assert("\\"@[0] == '\\');
            assert(name != "\\"@);
        }
    }
}

proof fn lemma_fixed_names_are_ordinary()
    ensures
        ordinary_name(MODEL_CACHE_DIR@),
        ordinary_name(MODEL_CACHE_FILE@),
{
    reveal_strlit("remote_models");
    reveal_strlit("models_cache.json");
    reveal_strlit(".");
    reveal_strlit("..");
    assert(MODEL_CACHE_DIR@.len() == 13 && MODEL_CACHE_FILE@.len() == 17);
    assert("."@.len() == 1 && ".."@.len() == 2);
}

proof fn lemma_sanitized_is_ordinary(id: Seq<char>)
    ensures
        !names_no_directory(id) && id != ".."@ ==> ordinary_name(sanitized(id)),
        names_no_directory(id) || id == ".."@ ==> sanitized(id) == id,
{
    reveal_strlit(".");
    reveal_strlit("..");
    let name = sanitized(id);
    assert(name.len() == id.len());
    if names_no_directory(id) || id == ".."@ {
        assert(name =~= id);
    }
    if name == "."@ {
        assert(name[0] == '.');
        assert(id =~= "."@);
    }
    if name == ".."@ {
        assert(name[0] == '.' && name[1] == '.');
        assert(id =~= ".."@);
    }
}

/// A sanitized id has the length of the id and consists of safe characters; the safe
/// characters of the id stay where they are.
pub proof fn law_sanitized_is_safe(id: Seq<char>)
    ensures
        sanitized(id).len() == id.len(),
        forall|i: int| 0 <= i < id.len() ==> #[trigger] safe_char(sanitized(id)[i]),
        forall|i: int|
            0 <= i < id.len() && safe_char(id[i]) ==> #[trigger] sanitized(id)[i] == id[i],
{
}

/// Sanitizing a sanitized id changes nothing.
pub proof fn law_sanitize_is_idempotent(id: Seq<char>)
    ensures
        sanitized(sanitized(id)) == sanitized(id),
{
    assert(sanitized(sanitized(id)) =~= sanitized(id));
}

/// Whatever the id, the path of its cache begins with the home directory and ends with a file of
/// the same name. In between it begins with the directory of all caches, unless the id is `..`.
pub proof fn law_cache_stays_below_home(home: Seq<Seq<char>>, id: Seq<char>)
    ensures
        forall|path: Seq<Seq<char>>| #[trigger]
            is_cache_path(path, home, id) ==> {
                &&& path.take(home.len() as int) == home
                &&& path.last() == MODEL_CACHE_FILE@
                &&& id != ".."@ ==> path[home.len() as int] == MODEL_CACHE_DIR@
            },
{
    assert(cache_components(home, id).take(home.len() as int) =~= home);
    assert(shared_cache_components(home).take(home.len() as int) =~= home);
    assert(home.push(MODEL_CACHE_FILE@).take(home.len() as int) =~= home);
}

/// Providers whose ids make different directory names do not share a cache, unless both ids name
/// no directory.
pub proof fn law_caches_are_scoped_by_provider(
    home: Seq<Seq<char>>,
    one: Seq<char>,
    other: Seq<char>,
)
    requires
        sanitized(one) != sanitized(other),
        !names_no_directory(one) || !names_no_directory(other),
    ensures
        forall|first: Seq<Seq<char>>, second: Seq<Seq<char>>|
            #[trigger] is_cache_path(first, home, one) && #[trigger] is_cache_path(
                second,
                home,
                other,
            ) ==> first != second,
{
    let at = home.len() as int + 1;
    assert(cache_components(home, one)[at] == sanitized(one));
    assert(cache_components(home, other)[at] == sanitized(other));
    assert(cache_components(home, one).len() == home.len() + 3);
    assert(cache_components(home, other).len() == home.len() + 3);
    assert(shared_cache_components(home).len() == home.len() + 2);
    assert(home.push(MODEL_CACHE_FILE@).len() == home.len() + 1);
    lemma_sanitized_is_ordinary(one);
    lemma_sanitized_is_ordinary(other);
}

/// Two ids that make different ordinary names have different caches below any directory, whatever
/// its start.
pub proof fn law_caches_differ_below_any_home(
    home: Seq<Seq<char>>,
    one: Seq<char>,
    other: Seq<char>,
    path: PathBuf,
    other_path: PathBuf,
)
    requires
        sanitized(one) != sanitized(other),
        !names_no_directory(one) && one != ".."@,
        !names_no_directory(other) && other != ".."@,
        is_models_cache_path(path, home, one),
        is_models_cache_path(other_path, home, other),
    ensures
        path_buf_text(path) != path_buf_text(other_path),
        path != other_path,
{
    if path_buf_text(path) == path_buf_text(other_path) {
        lemma_sanitized_is_ordinary(one);
        lemma_sanitized_is_ordinary(other);
        lemma_last_names(
            path_buf_text(path),
            sanitized(one),
            sanitized(other),
            MODEL_CACHE_FILE@,
        );
    }
}

proof fn lemma_last_names(
    text: Seq<char>,
    first: Seq<char>,
    second: Seq<char>,
    file: Seq<char>,
)
    requires
        ordinary_name(first),
        ordinary_name(second),
        ends_with_names(text, first, file),
        ends_with_names(text, second, file),
    ensures
        first == second,
{
    let (head, separator) = choose|head: Seq<char>, separator: char|
        {
            &&& #[trigger] before_a_name(head)
            &&& #[trigger] is_separator(separator)
            &&& text == head + first + seq![separator] + file
        };
    let (other_head, other_separator) = choose|head: Seq<char>, separator: char|
        {
            &&& #[trigger] before_a_name(head)
            &&& #[trigger] is_separator(separator)
            &&& text == head + second + seq![separator] + file
        };
    let end = text.len() - file.len() - 1;
    assert(text.take(end) =~= head + first);
    assert(text.take(end) =~= other_head + second);
    if head.len() < other_head.len() {
        let at = other_head.len() - 1;
        assert(text.take(end)[at] == other_head.last());
        assert(text.take(end)[at] == first[at - head.len()]);
    } else if head.len() > other_head.len() {
        let at = head.len() - 1;
        assert(text.take(end)[at] == head.last());
        assert(text.take(end)[at] == second[at - other_head.len()]);
    } else {
        assert(first =~= text.take(end).skip(head.len() as int));
        assert(second =~= text.take(end).skip(head.len() as int));
    }
}

/// A version as `major.minor.patch`.
pub open spec fn whole_version(major: Seq<char>, minor: Seq<char>, patch: Seq<char>) -> Seq<char> {
    major + "."@ + minor + "."@ + patch
}

/// The version the service is asked with: the three numbers of the client's version, without a
/// pre-release tag.
pub fn format_client_version_to_whole(major: &str, minor: &str, patch: &str) -> (version: String)
    ensures
        version@ == whole_version(major@, minor@, patch@),
{
    joined(&joined(&joined(&joined(major, "."), minor), "."), patch)
}

/// Of an id stay the ASCII letters and digits, the dot, the underscore and the hyphen; every
/// other character becomes an underscore.
pub proof fn law_unsafe_characters_become_underscores(id: Seq<char>, i: int)
    requires
        0 <= i < id.len(),
    ensures
        ({
            let c = id[i];
            let kept = 'a' <= c <= 'z' || 'A' <= c <= 'Z' || '0' <= c <= '9' || c == '.' || c == '_'
                || c == '-';
            &&& kept ==> sanitized(id)[i] == id[i]
            &&& !kept ==> sanitized(id)[i] == '_'
        }),
{
}

/// Below the home directory a cache has three names: the directory of all caches, the sanitized
/// id, and the file. Only an empty id and a dot leave the middle one out.
pub proof fn law_names_of_a_cache(path: Seq<Seq<char>>, home: Seq<Seq<char>>, id: Seq<char>)
    requires
        is_cache_path(path, home, id),
        id != ".."@,
    ensures
        id.len() > 0 && id != "."@ ==> path == home + seq![
            "remote_models"@,
            sanitized(id),
            "models_cache.json"@,
        ],
        id.len() == 0 || id == "."@ ==> path == home + seq![
            "remote_models"@,
            "models_cache.json"@,
        ],
{
    if id.len() > 0 && id != "."@ {
        assert(path =~= home + seq!["remote_models"@, sanitized(id), "models_cache.json"@]);
    } else {
        assert(path =~= home + seq!["remote_models"@, "models_cache.json"@]);
    }
}

/// A version is its three parts, in order, with a dot after the first and after the second.
pub proof fn law_version_holds_its_parts(major: Seq<char>, minor: Seq<char>, patch: Seq<char>)
    ensures
        ({
            let version = whole_version(major, minor, patch);
            let second = major.len() as int + 1;
            let third = second + minor.len() + 1;
            &&& version.len() == third + patch.len()
            &&& version.take(major.len() as int) == major
            &&& version[second - 1] == '.'
            &&& version.subrange(second, third - 1) == minor
            &&& version[third - 1] == '.'
            &&& version.skip(third) == patch
        }),
{
    reveal_strlit(".");
    let version = whole_version(major, minor, patch);
    let second = major.len() as int + 1;
    let third = second + minor.len() + 1;
    assert(version.take(major.len() as int) =~= major);
    assert(version.subrange(second, third - 1) =~= minor);
    assert(version.skip(third) =~= patch);
}

/// Below a directory that starts at the root of a Unix system, the path of a cache is that
/// directory and the three names, and below any other directory its text still ends with the
/// last two of them.
pub proof fn law_place_of_a_cache(path: PathBuf, home: Seq<Seq<char>>, id: Seq<char>)
    requires
        is_models_cache_path(path, home, id),
        id.len() > 0,
        id != "."@,
        id != ".."@,
    ensures
        home.len() > 0 && home[0] == "/"@ ==> path_buf_components(path) == home + seq![
            "remote_models"@,
            sanitized(id),
            "models_cache.json"@,
        ],
        exists|head: Seq<char>, separator: char|
            #![trigger before_a_name(head), is_separator(separator)]
            {
                &&& head.len() > 0 ==> head.last() == '/' || head.last() == '\\' || head.last()
                    == ':'
                &&& separator == '/' || separator == '\\'
                &&& path_buf_text(path) == head + sanitized(id) + seq![separator]
                    + "models_cache.json"@
            },
{
    if home.len() > 0 && home[0] == "/"@ {
        law_names_of_a_cache(path_buf_components(path), home, id);
    }
    let (head, separator) = choose|head: Seq<char>, separator: char|
        {
            &&& #[trigger] before_a_name(head)
            &&& #[trigger] is_separator(separator)
            &&& path_buf_text(path) == head + sanitized(id) + seq![separator] + MODEL_CACHE_FILE@
        };
    assert(before_a_name(head) && is_separator(separator));
}

/// The id `..` is not changed: its cache lies beside the directory of all caches, by that name or
/// with the name resolved.
pub proof fn law_place_of_the_parent_cache(path: Seq<Seq<char>>, home: Seq<Seq<char>>)
    requires
        is_cache_path(path, home, ".."@),
    ensures
        path == home + seq!["remote_models"@, ".."@, "models_cache.json"@] || path == home + seq![
            "models_cache.json"@,
        ],
{
    lemma_sanitized_is_ordinary(".."@);
    reveal_strlit(".");
    reveal_strlit("..");
    assert(".."@.len() == 2 && "."@.len() == 1);
    assert(cache_components(home, ".."@) =~= home + seq![
        "remote_models"@,
        ".."@,
        "models_cache.json"@,
    ]);
    assert(home.push(MODEL_CACHE_FILE@) =~= home + seq!["models_cache.json"@]);
}

} // verus!
