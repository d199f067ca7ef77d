//! The scratch directory and the names of the files created in it.

use vstd::prelude::*;
use vstd::string::*;
use crate::clock::micros_since_epoch;
use crate::entropy::{is_token, random_token};
use crate::text::{
    decimal, last_segment, lemma_decimal_injective, lemma_decimal_shape, lemma_trailing_segment,
    push_decimal, trailing_segment,
};

verus! {

/// The directory that holds the transient input and output files.
#[derive(Clone, Debug, PartialEq, Eq)]
pub struct ScratchStorage {
    pub dir: String,
}

/// A file in the scratch directory. Whoever holds the value is responsible
/// for the file until it is removed or handed on.
#[derive(Clone, Debug, PartialEq, Eq)]
pub struct ScratchFile {
    pub path: String,
}

impl View for ScratchStorage {
    type V = Seq<char>;

    /// The directory's path.
    open spec fn view(&self) -> Seq<char> {
        self.dir@
    }
}

impl View for ScratchFile {
    type V = Seq<char>;

    /// The file's path.
    open spec fn view(&self) -> Seq<char> {
        self.path@
    }
}

/// The hint used for a URL that ends in `'/'` or is empty.
pub open spec fn placeholder() -> Seq<char> {
    "missing_fname"@
}

/// The human-readable part of a scratch name: the URL's trailing segment, or
/// the placeholder where that segment is empty.
pub open spec fn name_hint(url: Seq<char>) -> Seq<char> {
    if trailing_segment(url).len() == 0 {
        placeholder()
    } else {
        trailing_segment(url)
    }
}

/// The file's name inside the scratch directory: a fixed tag, the hint, the
/// token and the timestamp in decimal, joined by `'-'`.
pub open spec fn scratch_component(hint: Seq<char>, token: Seq<char>, micros: nat) -> Seq<char> {
    "vid-"@ + hint + "-"@ + token + "-"@ + decimal(micros)
}

/// The full path of the scratch file created in `dir` for `url` with the
/// given token and timestamp.
pub open spec fn scratch_path(dir: Seq<char>, url: Seq<char>, token: Seq<char>, micros: nat) -> Seq<
    char,
> {
    dir + "/"@ + scratch_component(name_hint(url), token, micros)
}

/// The human-readable part of the scratch name for `url`.
pub fn hint_of(url: &str) -> (hint: String)
    ensures
        hint@ == name_hint(url@),
{
    let seg = last_segment(url);
    if seg.as_str().is_empty() {
        String::from_str("missing_fname")
    } else {
        seg
    }
}

impl ScratchStorage {
    /// A storage rooted at `dir`.
    pub fn new(dir: String) -> (storage: ScratchStorage)
        ensures
            storage@ == dir@,
    {
        ScratchStorage { dir }
    }

    /// The storage at its customary place, `/tmp/mpfoer`.
    pub fn standard() -> (storage: ScratchStorage)
        ensures
            storage@ == "/tmp/mpfoer"@,
    {
        ScratchStorage { dir: String::from_str("/tmp/mpfoer") }
    }

    /// The scratch file for `url` under the given token and timestamp.
    pub fn file_for(&self, url: &str, token: &str, micros: u128) -> (file: ScratchFile)
        ensures
            file@ == scratch_path(self@, url@, token@, micros as nat),
    {
        let hint = hint_of(url);
        let mut path = self.dir.clone();
        path.append("/");
        path.append("vid-");
        path.append(hint.as_str());
        path.append("-");
        path.append(token);
        path.append("-");
        push_decimal(&mut path, micros);
        proof {
            let tail = scratch_component(name_hint(url@), token@, micros as nat);
            assert(path@ =~= self@ + "/"@ + tail);
        }
        ScratchFile { path }
    }

    /// A scratch file for `url` under a fresh random token and the current
    /// time. No two calls need to agree; whatever the token and the clock
    /// were, the path follows the naming rule.
    pub fn fresh_file(&self, url: &str) -> (file: ScratchFile)
        ensures
            exists|token: Seq<char>, micros: nat|
                is_token(token) && micros <= u128::MAX && file@ == #[trigger] scratch_path(
                    self@,
                    url@,
                    token,
                    micros,
                ),
    {
        let token = random_token();
        let micros = micros_since_epoch();
        self.file_for(url, token.as_str(), micros)
    }
}

/// A name inside the scratch directory determines the hint, the token and
/// the timestamp it was made of, among tokens of one length.
pub proof fn lemma_component_injective(
    h1: Seq<char>,
    t1: Seq<char>,
    m1: nat,
    h2: Seq<char>,
    t2: Seq<char>,
    m2: nat,
)
    requires
        t1.len() == t2.len(),
        scratch_component(h1, t1, m1) == scratch_component(h2, t2, m2),
    ensures
        h1 == h2,
        t1 == t2,
        m1 == m2,
{
    reveal_strlit("-");
    reveal_strlit("vid-");
    let a = scratch_component(h1, t1, m1);
    let b = scratch_component(h2, t2, m2);
    let n = a.len() as int;
    let d1 = decimal(m1);
    let d2 = decimal(m2);
    let k1 = n - d1.len();
    let k2 = n - d2.len();
    lemma_decimal_shape(m1);
    lemma_decimal_shape(m2);
    assert(a[k1 - 1] == '-');
    assert(b[k2 - 1] == '-');
    assert forall|i: int| k1 <= i < n implies '0' <= #[trigger] a[i] <= '9' by {
        assert(a[i] == d1[i - k1]);
    }
    assert forall|i: int| k2 <= i < n implies '0' <= #[trigger] b[i] <= '9' by {
        assert(b[i] == d2[i - k2]);
    }
    if k1 < k2 {
        assert('0' <= a[k2 - 1] <= '9');
        assert(false);
    }
    if k2 < k1 {
        assert('0' <= b[k1 - 1] <= '9');
        assert(false);
    }
    assert(d1 =~= a.subrange(k1, n));
    assert(d2 =~= b.subrange(k2, n));
    lemma_decimal_injective(m1, m2);
    let j = k1 - 1 - t1.len();
    assert(t1 =~= a.subrange(j, k1 - 1));
    assert(t2 =~= b.subrange(j, k1 - 1));
    assert(h1 =~= a.subrange(4, j - 1));
    assert(h2 =~= b.subrange(4, j - 1));
}

/// Two scratch files of one directory and one URL share a path only if they
/// were named with the same token and the same timestamp: while either of
/// the two changes between creations, names do not collide.
pub proof fn lemma_paths_collide_only_on_equal_inputs(
    dir: Seq<char>,
    url: Seq<char>,
    t1: Seq<char>,
    m1: nat,
    t2: Seq<char>,
    m2: nat,
)
    requires
        is_token(t1),
        is_token(t2),
        scratch_path(dir, url, t1, m1) == scratch_path(dir, url, t2, m2),
    ensures
        t1 == t2,
        m1 == m2,
{
    let c1 = scratch_component(name_hint(url), t1, m1);
    let c2 = scratch_component(name_hint(url), t2, m2);
    let head = dir + "/"@;
    assert(scratch_path(dir, url, t1, m1) =~= head + c1);
    assert(scratch_path(dir, url, t2, m2) =~= head + c2);
    assert(c1 =~= (head + c1).subrange(head.len() as int, (head + c1).len() as int));
    assert(c2 =~= (head + c2).subrange(head.len() as int, (head + c2).len() as int));
    lemma_component_injective(name_hint(url), t1, m1, name_hint(url), t2, m2);
}

/// A scratch file lies directly in the scratch directory: behind the
/// directory and one `'/'` its path holds no further `'/'`.
pub proof fn lemma_path_stays_in_dir(dir: Seq<char>, url: Seq<char>, token: Seq<char>, micros: nat)
    requires
        is_token(token),
    ensures
        ({
            let path = scratch_path(dir, url, token, micros);
            &&& (dir + "/"@).is_prefix_of(path)
            &&& forall|i: int| dir.len() + 1 <= i < path.len() ==> path[i] != '/'
        }),
{
    reveal_strlit("-");
    reveal_strlit("/");
    reveal_strlit("vid-");
    reveal_strlit("missing_fname");
    let hint = name_hint(url);
    let digits = decimal(micros);
    let c = scratch_component(hint, token, micros);
    let path = scratch_path(dir, url, token, micros);
    let head = dir + "/"@;
    lemma_trailing_segment(url);
    lemma_decimal_shape(micros);
    assert(path =~= head + c);
    assert(head =~= path.subrange(0, head.len() as int));
    assert forall|i: int| 0 <= i < hint.len() implies hint[i] != '/' by {
        if trailing_segment(url).len() == 0 {
            assert(hint == "missing_fname"@);
        }
    }
    assert forall|i: int| 0 <= i < c.len() implies c[i] != '/' by {
        let a = 4 + hint.len();
        let b = a + 1 + token.len();
        if i < 4 {
        } else if i < a {
            assert(c[i] == hint[i - 4]);
        } else if i == a {
        } else if i < b {
            assert(c[i] == token[i - a - 1]);
        } else if i == b {
        } else {
            assert(c[i] == digits[i - b - 1]);
        }
    }
    assert forall|i: int| dir.len() + 1 <= i < path.len() implies path[i] != '/' by {
        assert(path[i] == c[i - head.len()]);
    }
}

} // verus!
