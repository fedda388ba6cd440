//! Naming the focused application from what the platform reports: the X11
//! `WM_CLASS` property, or the image path of the foreground process on Windows.
use crate::text::{
    back_run_len, chars_of, lemma_back_run_len_is, lemma_run_len_is, run_len, trim, trimmed,
};
use vstd::prelude::*;
use vstd::string::StrSliceExecFns;
use vstd::string::StringExecFns;
use vstd::utf8::{decode_utf8, valid_utf8};

verus! {

broadcast use vstd::string::group_string_axioms;

pub open spec fn nonzero() -> spec_fn(u8) -> bool {
    |b: u8| b != 0
}

/// The non-empty NUL-separated fields of a property value.
pub open spec fn nul_fields(v: Seq<u8>) -> Seq<Seq<u8>>
    decreases v.len(),
{
    if v.len() == 0 {
        seq![]
    } else if v[0] == 0 {
        nul_fields(v.drop_first())
    } else {
        let w = run_len(v, nonzero());
        if 0 < w <= v.len() {
            seq![v.take(w as int)] + nul_fields(v.skip(w as int))
        } else {
            seq![]
        }
    }
}

/// What `String::from_utf8_lossy` decodes a byte string to.
pub uninterp spec fn spec_utf8_lossy(b: Seq<u8>) -> Seq<char>;

/// Calls `String::from_utf8_lossy`; its result is named by `spec_utf8_lossy`,
/// and valid UTF-8 decodes exactly (the function's documented behavior).
#[verifier::external_body]
fn utf8_lossy(b: &[u8]) -> (s: String)
    ensures
        s@ == spec_utf8_lossy(b@),
        valid_utf8(b@) ==> s@ == decode_utf8(b@),
{
    String::from_utf8_lossy(b).into_owned()
}

/// The application name in a `WM_CLASS` value (`instance\0class\0`): the class
/// (second field) or else the only field, decoded and trimmed; `None` if empty.
pub open spec fn wm_class_name(v: Seq<u8>) -> Option<Seq<char>> {
    let fields = nul_fields(v);
    if fields.len() == 0 {
        None
    } else {
        let field = if fields.len() >= 2 {
            fields[1]
        } else {
            fields[0]
        };
        let name = trim(spec_utf8_lossy(field));
        if name.len() == 0 {
            None
        } else {
            Some(name)
        }
    }
}

proof fn lemma_nul_fields_skip_zero(v: Seq<u8>, i: int)
    requires
        0 <= i < v.len(),
        v[i] == 0,
    ensures
        nul_fields(v.skip(i)) == nul_fields(v.skip(i + 1)),
{
    assert(v.skip(i)[0] == v[i]);
    assert(v.skip(i).drop_first() =~= v.skip(i + 1));
}

proof fn lemma_nul_fields_take(v: Seq<u8>, i: int, e: int)
    requires
        0 <= i < e <= v.len(),
        forall|j: int| i <= j < e ==> #[trigger] v[j] != 0,
        e == v.len() || v[e] == 0,
    ensures
        nul_fields(v.skip(i)) == seq![v.subrange(i, e)] + nul_fields(v.skip(e)),
{
    let t = v.skip(i);
    assert forall|j: int| 0 <= j < e - i implies #[trigger] nonzero()(t[j]) by {
        assert(t[j] == v[i + j]);
    }
    if e < v.len() {
        assert(t[e - i] == v[e]);
    }
    lemma_run_len_is(t, nonzero(), e - i);
    assert(t[0] == v[i]);
    assert(t.take(e - i) =~= v.subrange(i, e));
    assert(t.skip(e - i) =~= v.skip(e));
}

/// The focused application's name from its `WM_CLASS` property value.
pub fn app_name_from_wm_class(value: &[u8]) -> (r: Option<String>)
    ensures
        match r {
            Some(s) => wm_class_name(value@) == Some(s@),
            None => wm_class_name(value@) is None,
        },
{
    let n = value.len();
    let mut i: usize = 0;
    let mut first: Option<(usize, usize)> = None;
    let mut second: Option<(usize, usize)> = None;
    let ghost mut done: Seq<Seq<u8>> = seq![];
    proof {
        assert(value@.skip(0) =~= value@);
        assert(done + nul_fields(value@.skip(0)) =~= nul_fields(value@));
    }
    while i < n && second.is_none()
        invariant
            i <= n,
            n == value.len(),
            done + nul_fields(value@.skip(i as int)) == nul_fields(value@),
            done.len() <= 2,
            done.len() == 0 ==> first is None && second is None,
            done.len() >= 1 ==> (first matches Some((a, b)) && a <= b <= n && done[0]
                == value@.subrange(a as int, b as int)),
            done.len() == 1 ==> second is None,
            done.len() == 2 ==> (second matches Some((a, b)) && a <= b <= n && done[1]
                == value@.subrange(a as int, b as int)),
        decreases n - i,
    {
        if value[i] == 0 {
            proof {
                lemma_nul_fields_skip_zero(value@, i as int);
            }
            i = i + 1;
        } else {
            let start = i;
            let mut e = i + 1;
            while e < n && value[e] != 0
                invariant
                    start < e <= n,
                    n == value.len(),
                    value@[start as int] != 0,
                    forall|j: int| start <= j < e ==> #[trigger] value@[j] != 0,
                decreases n - e,
            {
                e = e + 1;
            }
            proof {
                lemma_nul_fields_take(value@, start as int, e as int);
                let old_done = done;
                done = done.push(value@.subrange(start as int, e as int));
                assert(done + nul_fields(value@.skip(e as int)) =~= old_done + nul_fields(
                    value@.skip(start as int),
                ));
            }
            if first.is_none() {
                first = Some((start, e));
            } else {
                second = Some((start, e));
            }
            i = e;
        }
    }
    proof {
        if second.is_none() {
            assert(value@.skip(i as int) =~= Seq::<u8>::empty());
            assert(done =~= nul_fields(value@));
        } else {
            assert(nul_fields(value@).len() >= 2);
            assert(nul_fields(value@)[0] == done[0]);
            assert(nul_fields(value@)[1] == done[1]);
        }
    }
    let field = match second {
        Some((a, b)) => vstd::slice::slice_subrange(value, a, b),
        None => match first {
            Some((a, b)) => vstd::slice::slice_subrange(value, a, b),
            None => {
                return None;
            },
        },
    };
    let decoded = utf8_lossy(field);
    let name = trimmed(decoded.as_str());
    if name.as_str().is_empty() {
        None
    } else {
        Some(name)
    }
}

pub open spec fn not_path_sep() -> spec_fn(char) -> bool {
    |c: char| c != '\\' && c != '/'
}

/// The last component of a path split on `\` and `/`.
pub open spec fn file_component(path: Seq<char>) -> Seq<char> {
    path.skip(path.len() - back_run_len(path, not_path_sep()))
}

/// `s` without `suffix`, if it ends with it.
pub open spec fn strip_suffix(s: Seq<char>, suffix: Seq<char>) -> Option<Seq<char>> {
    if s.len() >= suffix.len() && s.skip(s.len() - suffix.len()) == suffix {
        Some(s.take(s.len() - suffix.len()))
    } else {
        None
    }
}

/// The application name in a process image path: the file name without an
/// `.exe` (or `.EXE`) extension; `None` if that is empty.
pub open spec fn image_path_name(path: Seq<char>) -> Option<Seq<char>> {
    let file = file_component(path);
    let stem = match strip_suffix(file, ".exe"@) {
        Some(s) => s,
        None => match strip_suffix(file, ".EXE"@) {
            Some(s) => s,
            None => file,
        },
    };
    if stem.len() == 0 {
        None
    } else {
        Some(stem)
    }
}

fn strip_suffix_len(s: &[char], suffix: &str) -> (r: Option<usize>)
    ensures
        match strip_suffix(s@, suffix@) {
            Some(t) => (r matches Some(k) && k <= s.len() && t == s@.take(k as int)),
            None => r is None,
        },
{
    let x = chars_of(suffix);
    if s.len() < x.len() {
        return None;
    }
    let base = s.len() - x.len();
    let mut i: usize = 0;
    while i < x.len()
        invariant
            x@ == suffix@,
            base + x.len() == s.len(),
            i <= x.len(),
            forall|j: int| 0 <= j < i ==> s@[base + j] == x@[j],
        decreases x.len() - i,
    {
        if s[base + i] != x[i] {
            proof {
                assert(s@.skip(base as int)[i as int] != suffix@[i as int]);
            }
            return None;
        }
        i = i + 1;
    }
    proof {
        assert(s@.skip(base as int) =~= suffix@);
    }
    Some(base)
}

/// The focused application's name from the image path of its process.
pub fn app_name_from_image_path(path: &str) -> (r: Option<String>)
    ensures
        match r {
            Some(s) => image_path_name(path@) == Some(s@),
            None => image_path_name(path@) is None,
        },
{
    let chars = chars_of(path);
    let n = chars.len();
    let mut k: usize = 0;
    while k < n && chars[n - 1 - k] != '\\' && chars[n - 1 - k] != '/'
        invariant
            k <= n,
            n == chars.len(),
            forall|j: int| n - k <= j < n ==> #[trigger] not_path_sep()(chars@[j]),
        decreases n - k,
    {
        k = k + 1;
    }
    proof {
        lemma_back_run_len_is(chars@, not_path_sep(), k as int);
    }
    let file = vstd::slice::slice_subrange(chars.as_slice(), n - k, n);
    proof {
        assert(file@ =~= file_component(path@));
    }
    let stem_len = match strip_suffix_len(file, ".exe") {
        Some(len) => len,
        None => match strip_suffix_len(file, ".EXE") {
            Some(len) => len,
            None => file.len(),
        },
    };
    proof {
        assert(file@.take(file.len() as int) =~= file@);
    }
    if stem_len == 0 {
        return None;
    }
    let stem = path.substring_char(n - k, n - k + stem_len);
    proof {
        assert(stem@ =~= file@.take(stem_len as int));
    }
    Some(String::from_str(stem))
}

} // verus!
