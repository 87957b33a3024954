//! Where the checkout lives: the workspace's name, derived from the
//! repository URL, and the paths inside and around it.

use vstd::prelude::*;
use vstd::std_specs::iter::IteratorSpec;
use crate::text::{text_of, texts_of};

verus! {

/// The pieces into which the character `/` cuts `s`, in order. There is
/// always at least one piece, and a piece may be empty.
pub open spec fn pieces(s: Seq<char>) -> Seq<Seq<char>>
    decreases s.len(),
{
    if s.len() == 0 {
        seq![Seq::<char>::empty()]
    } else {
        let before = pieces(s.drop_last());
        if s.last() == '/' {
            before.push(Seq::<char>::empty())
        } else {
            before.drop_last().push(before.last().push(s.last()))
        }
    }
}

/// Whether the pieces are those of a URL that begins with a scheme, as in
/// `https://host/...`: the first piece ends in a colon and the second is
/// empty.
pub open spec fn has_scheme(parts: Seq<Seq<char>>) -> bool {
    parts.len() >= 3 && parts[0].len() > 0 && parts[0].last() == ':' && parts[1].len() == 0
}

/// The index of the piece that names the host: the third piece behind a
/// scheme, the first piece otherwise, as in `host/owner/repository` or
/// `git@host:owner/repository`.
pub open spec fn host_index(parts: Seq<Seq<char>>) -> int {
    if has_scheme(parts) {
        2
    } else {
        0
    }
}

/// The last piece that is not empty among those behind the index `after`.
pub open spec fn last_filled(parts: Seq<Seq<char>>, after: int) -> Option<Seq<char>>
    decreases parts.len(),
{
    if parts.len() <= after + 1 || parts.len() == 0 {
        None
    } else if parts.last().len() > 0 {
        Some(parts.last())
    } else {
        last_filled(parts.drop_last(), after)
    }
}

/// The piece of the URL that names the repository. In
/// `https://host/owner/repository` it is the fifth piece, and the fifth
/// piece it is wherever there is one that is not empty. Elsewhere it is the
/// last piece behind the host that is not empty, as in
/// `https://host/repository`. A URL with nothing behind its host names no
/// repository.
pub open spec fn repository_of(url: Seq<char>) -> Option<Seq<char>> {
    repository_among(pieces(url))
}

/// The piece that names the repository among the pieces of a URL.
pub open spec fn repository_among(parts: Seq<Seq<char>>) -> Option<Seq<char>> {
    if parts.len() > 4 && parts[4].len() > 0 {
        Some(parts[4])
    } else {
        last_filled(parts, host_index(parts))
    }
}

/// The workspace's name: the repository's name, with a marker in front when
/// the checkout is temporary.
pub open spec fn workspace_name_of(url: Seq<char>, in_place: bool) -> Option<Seq<char>> {
    match repository_of(url) {
        Some(name) => Some(if in_place { "temp_"@ + name } else { name }),
        None => None,
    }
}

/// `name` inside the directory `dir`.
pub open spec fn inside(dir: Seq<char>, name: Seq<char>) -> Seq<char> {
    dir + "/"@ + name
}

/// The control file, inside the workspace, that lists the folders to
/// check out.
pub open spec fn pattern_file_of(workspace: Seq<char>) -> Seq<char> {
    workspace + "/.git/info/sparse-checkout"@
}

/// The pieces `parts` put together again, with one `/` between each two.
pub open spec fn joined(parts: Seq<Seq<char>>) -> Seq<char>
    decreases parts.len(),
{
    if parts.len() == 0 {
        Seq::<char>::empty()
    } else if parts.len() == 1 {
        parts[0]
    } else {
        joined(parts.drop_last()) + seq!['/'] + parts.last()
    }
}

/// Every text has at least one piece.
pub proof fn lemma_pieces_nonempty(s: Seq<char>)
    ensures
        pieces(s).len() >= 1,
    decreases s.len(),
{
    if s.len() > 0 {
        lemma_pieces_nonempty(s.drop_last());
    }
}

/// The pieces of a text, joined with `/`, give the text back: cutting
/// loses nothing and adds nothing.
pub proof fn lemma_pieces_join(s: Seq<char>)
    ensures
        joined(pieces(s)) == s,
    decreases s.len(),
{
    if s.len() == 0 {
        assert(joined(pieces(s)) =~= s);
    } else {
        let before = pieces(s.drop_last());
        lemma_pieces_nonempty(s.drop_last());
        lemma_pieces_join(s.drop_last());
        if s.last() == '/' {
            let parts = before.push(Seq::<char>::empty());
            assert(parts.drop_last() =~= before);
            assert(joined(parts) =~= s.drop_last().push('/'));
            assert(s.drop_last().push('/') =~= s);
        } else {
            let grown = before.last().push(s.last());
            let parts = before.drop_last().push(grown);
            if before.len() == 1 {
                assert(joined(parts) =~= before[0].push(s.last()));
            } else {
                assert(parts.drop_last() =~= before.drop_last());
                assert(joined(parts) =~= (joined(before.drop_last()) + seq!['/']
                    + before.last()).push(s.last()));
            }
            assert(s.drop_last().push(s.last()) =~= s);
        }
    }
}

/// No piece holds a `/`.
pub proof fn lemma_pieces_hold_no_slash(s: Seq<char>, i: int, j: int)
    requires
        0 <= i < pieces(s).len(),
        0 <= j < pieces(s)[i].len(),
    ensures
        pieces(s)[i][j] != '/',
    decreases s.len(),
{
    if s.len() > 0 {
        let before = pieces(s.drop_last());
        lemma_pieces_nonempty(s.drop_last());
        if s.last() == '/' {
            lemma_pieces_hold_no_slash(s.drop_last(), i, j);
        } else if i < before.len() - 1 {
            lemma_pieces_hold_no_slash(s.drop_last(), i, j);
        } else if j < before.last().len() {
            lemma_pieces_hold_no_slash(s.drop_last(), i, j);
        }
    }
}

/// What `last_filled` gives is one of the pieces behind `after`, and it is
/// not empty; it gives nothing only where each of those pieces is empty.
pub proof fn lemma_last_filled(parts: Seq<Seq<char>>, after: int)
    requires
        0 <= after,
    ensures
        match last_filled(parts, after) {
            Some(part) => part.len() > 0 && exists|i: int|
                after < i < parts.len() && parts[i] == part,
            None => forall|i: int| after < i < parts.len() ==> (#[trigger] parts[i]).len() == 0,
        },
    decreases parts.len(),
{
    if parts.len() > after + 1 {
        if parts.last().len() > 0 {
            assert(parts[parts.len() - 1] == parts.last());
        } else {
            lemma_last_filled(parts.drop_last(), after);
            match last_filled(parts.drop_last(), after) {
                Some(part) => {
                    let i = choose|i: int|
                        after < i < parts.drop_last().len() && parts.drop_last()[i] == part;
                    assert(parts[i] == part);
                },
                None => {
                    assert forall|i: int| after < i < parts.len() implies (#[trigger] parts[i]).len()
                        == 0 by {
                        if i < parts.len() - 1 {
                            assert(parts.drop_last()[i] == parts[i]);
                        }
                    }
                },
            }
        }
    }
}

/// The name of a repository is never empty and holds no `/`, so the
/// workspace lies directly in the directory in which the run begins.
pub proof fn lemma_repository_is_a_name(url: Seq<char>, i: int)
    requires
        repository_of(url) is Some,
        0 <= i < repository_of(url)->0.len(),
    ensures
        repository_of(url)->0.len() > 0,
        repository_of(url)->0[i] != '/',
{
    let parts = pieces(url);
    if parts.len() > 4 && parts[4].len() > 0 {
        lemma_pieces_hold_no_slash(url, 4, i);
    } else {
        lemma_last_filled(parts, host_index(parts));
        let part = last_filled(parts, host_index(parts))->0;
        let k = choose|k: int| host_index(parts) < k < parts.len() && parts[k] == part;
        lemma_pieces_hold_no_slash(url, k, i);
    }
}

/// Whether a text holds no `/`.
pub open spec fn slash_free(s: Seq<char>) -> bool {
    forall|i: int| 0 <= i < s.len() ==> s[i] != '/'
}

/// A text without a `/` is its own single piece.
pub proof fn lemma_pieces_of_one(t: Seq<char>)
    requires
        slash_free(t),
    ensures
        pieces(t) == seq![t],
    decreases t.len(),
{
    if t.len() == 0 {
        assert(t =~= Seq::<char>::empty());
        assert(pieces(t) =~= seq![t]);
    } else {
        lemma_pieces_of_one(t.drop_last());
        let before = pieces(t.drop_last());
        assert(t[t.len() - 1] != '/');
        assert(t.drop_last().push(t.last()) =~= t);
        assert(before.drop_last().push(before.last().push(t.last())) =~= seq![t]);
    }
}

/// A `/` and a text without one, put behind a text, add one piece to its
/// pieces.
pub proof fn lemma_pieces_append(s: Seq<char>, t: Seq<char>)
    requires
        slash_free(t),
    ensures
        pieces(s + seq!['/'] + t) == pieces(s).push(t),
    decreases t.len(),
{
    let whole = s + seq!['/'] + t;
    if t.len() == 0 {
        assert(t =~= Seq::<char>::empty());
        assert(whole.drop_last() =~= s);
        assert(whole.last() == '/');
        assert(pieces(whole) =~= pieces(s).push(t));
    } else {
        lemma_pieces_append(s, t.drop_last());
        let before = pieces(whole.drop_last());
        assert(whole.drop_last() =~= s + seq!['/'] + t.drop_last());
        assert(whole.last() == t[t.len() - 1]);
        assert(t[t.len() - 1] != '/');
        assert(t.drop_last().push(t.last()) =~= t);
        assert(before.drop_last() =~= pieces(s));
        assert(before.drop_last().push(before.last().push(whole.last())) =~= pieces(s).push(t));
    }
}

/// In a URL of the form `scheme://host/owner/name` the repository is
/// `name`, and so it is in one of the form `scheme://host/name`, where the
/// repository follows the host at once.
pub proof fn lemma_repository_of_url(
    scheme: Seq<char>,
    host: Seq<char>,
    owner: Seq<char>,
    name: Seq<char>,
)
    requires
        slash_free(scheme),
        slash_free(host),
        slash_free(owner),
        slash_free(name),
        scheme.len() > 0 && scheme.last() == ':',
        name.len() > 0,
    ensures
        repository_of(scheme + seq!['/', '/'] + host + seq!['/'] + owner + seq!['/'] + name)
            == Some(name),
        repository_of(scheme + seq!['/', '/'] + host + seq!['/'] + name) == Some(name),
{
    let slash = seq!['/'];
    let nothing = Seq::<char>::empty();
    let opened = scheme + slash + nothing;
    let hosted = opened + slash + host;
    lemma_pieces_of_one(scheme);
    lemma_pieces_append(scheme, nothing);
    lemma_pieces_append(opened, host);
    assert(pieces(hosted) =~= seq![scheme, nothing, host]);
    assert(hosted =~= scheme + seq!['/', '/'] + host);

    let short = hosted + slash + name;
    lemma_pieces_append(hosted, name);
    assert(pieces(short) =~= seq![scheme, nothing, host, name]);
    assert(short =~= scheme + seq!['/', '/'] + host + seq!['/'] + name);
    assert(has_scheme(pieces(short)));
    assert(pieces(short).drop_last().len() == 3);
    assert(last_filled(pieces(short), 2) == Some(name));

    let owned = hosted + slash + owner;
    let usual = owned + slash + name;
    lemma_pieces_append(hosted, owner);
    lemma_pieces_append(owned, name);
    assert(pieces(usual) =~= seq![scheme, nothing, host, owner, name]);
    assert(usual =~= scheme + seq!['/', '/'] + host + seq!['/'] + owner + seq!['/'] + name);
}

/// Returns the pieces into which `/` cuts `text`, in order.
pub fn split_pieces(text: &str) -> (parts: Vec<String>)
    ensures
        texts_of(parts@) == pieces(text@),
{
    let total = text.unicode_len();
    let mut rest = text.chars();
    let mut parts: Vec<String> = Vec::new();
    let mut from: usize = 0;
    let mut at: usize = 0;
    proof {
        assert(text@.take(0) =~= Seq::<char>::empty());
        assert(texts_of(parts@).push(text@.subrange(0, 0)) =~= pieces(text@.take(0)));
    }
    loop
        invariant
            total == text@.len(),
            from <= at <= total,
            rest.remaining() == text@.skip(at as int),
            texts_of(parts@).push(text@.subrange(from as int, at as int)) == pieces(
                text@.take(at as int),
            ),
        ensures
            at == total,
        decreases total - at,
    {
        let ghost seen = text@.take(at as int);
        let ghost done = texts_of(parts@);
        let ghost open = text@.subrange(from as int, at as int);
        match rest.next() {
            None => {
                assert(text@.skip(at as int).len() == 0);
                break;
            },
            Some(c) => {
                proof {
                    let grown = text@.take(at as int + 1);
                    assert(grown.drop_last() =~= seen);
                    assert(grown.last() == c);
                    assert(done.push(open).drop_last() =~= done);
                    assert(done.push(open).last() == open);
                }
                if c == '/' {
                    let piece = text.substring_char(from, at);
                    parts.push(String::from_str(piece));
                    from = at + 1;
                    proof {
                        assert(texts_of(parts@) =~= done.push(open));
                        assert(text@.subrange(at as int + 1, at as int + 1) =~= Seq::<
                            char,
                        >::empty());
                    }
                } else {
                    proof {
                        assert(open.push(c) =~= text@.subrange(from as int, at as int + 1));
                    }
                }
                at = at + 1;
            },
        }
    }
    let ghost done = texts_of(parts@);
    let piece = text.substring_char(from, at);
    parts.push(String::from_str(piece));
    proof {
        assert(text@.take(at as int) =~= text@);
        assert(texts_of(parts@) =~= done.push(text@.subrange(from as int, at as int)));
    }
    parts
}

/// Returns the index, among `parts`, of the piece that names the
/// repository, if there is one.
fn repository_index(parts: &Vec<String>) -> (found: Option<usize>)
    ensures
        match found {
            Some(index) => index < parts.len() && Some(parts[index as int]@) == repository_among(
                texts_of(parts@),
            ),
            None => repository_among(texts_of(parts@)) is None,
        },
{
    let ghost texts = texts_of(parts@);
    let count = parts.len();
    if count > 4 && !parts[4].as_str().is_empty() {
        return Some(4);
    }
    let mut host: usize = 0;
    if count >= 3 && parts[1].as_str().is_empty() {
        let scheme = parts[0].as_str();
        let length = scheme.unicode_len();
        if length > 0 && scheme.get_char(length - 1) == ':' {
            host = 2;
        }
    }
    assert(host == host_index(texts));
    assert(texts.take(count as int) =~= texts);
    let mut at: usize = count;
    while at > host + 1
        invariant
            host <= 2,
            at <= count,
            repository_among(texts) == last_filled(texts, host as int),
            count == parts.len(),
            texts == texts_of(parts@),
            last_filled(texts, host as int) == last_filled(texts.take(at as int), host as int),
        decreases at,
    {
        proof {
            assert(texts.take(at as int).drop_last() =~= texts.take(at as int - 1));
            assert(texts.take(at as int).last() == parts[at as int - 1]@);
        }
        if !parts[at - 1].as_str().is_empty() {
            assert(last_filled(texts.take(at as int), host as int) == Some(parts[at as int - 1]@));
            return Some(at - 1);
        }
        at = at - 1;
    }
    None
}

/// Returns the workspace's name for a checkout of `url`, or nothing when
/// the URL names no repository.
pub fn workspace_name(url: &str, in_place: bool) -> (name: Option<String>)
    ensures
        text_of(name) == workspace_name_of(url@, in_place),
{
    let parts = split_pieces(url);
    match repository_index(&parts) {
        None => None,
        Some(index) => {
            if in_place {
                Some(String::from_str("temp_").concat(parts[index].as_str()))
            } else {
                Some(parts[index].clone())
            }
        },
    }
}

/// Returns the path of `name` inside the directory `dir`.
pub fn path_inside(dir: &str, name: &str) -> (path: String)
    ensures
        path@ == inside(dir@, name@),
{
    String::from_str(dir).concat("/").concat(name)
}

/// Returns the path of the pattern file inside `workspace`.
pub fn pattern_file(workspace: &str) -> (path: String)
    ensures
        path@ == pattern_file_of(workspace@),
{
    String::from_str(workspace).concat("/.git/info/sparse-checkout")
}

} // verus!
