//! Pure path logic for the pipeline.
//!
//! Paths are plain strings with `/` as the separator. The file name of a path
//! is everything after its last separator; a name of `""`, `"."` or `".."`
//! has no stem and cannot be paired with an output name. Within a file name,
//! the stem and the extension split at the last dot, except that a dot in the
//! first position starts the name of a hidden file and does not split it.

use vstd::prelude::*;

use crate::error::ConvertError;

verus! {

/// Index of the last occurrence of `c` in `s`, or `-1` if there is none.
pub open spec fn last_index_of(s: Seq<char>, c: char) -> int
    decreases s.len(),
{
    if s.len() == 0 {
        -1
    } else if s.last() == c {
        s.len() - 1
    } else {
        last_index_of(s.drop_last(), c)
    }
}

/// The last occurrence lies in range, holds `c`, and nothing after it does.
pub proof fn lemma_last_index_of_props(s: Seq<char>, c: char)
    ensures
        -1 <= last_index_of(s, c) < s.len(),
        last_index_of(s, c) >= 0 ==> s[last_index_of(s, c)] == c,
        forall|j: int| last_index_of(s, c) < j < s.len() ==> s[j] != c,
    decreases s.len(),
{
    if s.len() > 0 && s.last() != c {
        lemma_last_index_of_props(s.drop_last(), c);
        assert(forall|j: int| 0 <= j < s.len() - 1 ==> s[j] == s.drop_last()[j]);
    }
}

/// If `c` stands at `k` and nowhere later, then `k` is its last occurrence.
pub proof fn lemma_last_index_of_witness(s: Seq<char>, c: char, k: int)
    requires
        0 <= k < s.len(),
        s[k] == c,
        forall|j: int| k < j < s.len() ==> s[j] != c,
    ensures
        last_index_of(s, c) == k,
    decreases s.len(),
{
    if k == s.len() - 1 {
    } else {
        assert(s.last() != c);
        assert(forall|j: int| 0 <= j < s.len() - 1 ==> s[j] == s.drop_last()[j]);
        lemma_last_index_of_witness(s.drop_last(), c, k);
    }
}

/// Unrolls `last_index_of` by one pushed character.
pub proof fn lemma_last_index_of_push(s: Seq<char>, c: char, d: char)
    ensures
        last_index_of(s.push(d), c) == if d == c {
            s.len() as int
        } else {
            last_index_of(s, c)
        },
{
    assert(s.push(d).drop_last() =~= s);
    assert(s.push(d).last() == d);
}

/// The file name of a path: everything after the last separator.
pub open spec fn file_name_of(p: Seq<char>) -> Seq<char> {
    p.skip(last_index_of(p, '/') + 1)
}

/// Whether a path carries a file name with a stem.
pub open spec fn has_stem(p: Seq<char>) -> bool {
    let f = file_name_of(p);
    f.len() > 0 && f != seq!['.'] && f != seq!['.', '.']
}

/// Index of the dot that splits a file name into stem and extension,
/// or `-1` if the name has no extension.
pub open spec fn split_dot_of(f: Seq<char>) -> int {
    if last_index_of(f, '.') > 0 {
        last_index_of(f, '.')
    } else {
        -1
    }
}

/// Whether a file name carries an extension.
pub open spec fn has_extension(f: Seq<char>) -> bool {
    split_dot_of(f) >= 0
}

/// The stem of a file name: the part before the split dot, or the whole name.
pub open spec fn stem_of(f: Seq<char>) -> Seq<char> {
    if has_extension(f) {
        f.take(split_dot_of(f))
    } else {
        f
    }
}

/// The extension of a file name: the part after the split dot.
pub open spec fn extension_of(f: Seq<char>) -> Seq<char>
    recommends
        has_extension(f),
{
    f.skip(split_dot_of(f) + 1)
}

/// The upper-cased code point of a character, folding only ASCII letters.
pub open spec fn upper_code(c: char) -> u32 {
    if 97 <= c as u32 && c as u32 <= 122 {
        (c as u32 - 32) as u32
    } else {
        c as u32
    }
}

/// Whether a file name's extension equals the target extension, comparing
/// ASCII letters without regard to case.
pub open spec fn ext_matches(f: Seq<char>, target: Seq<char>) -> bool {
    &&& has_extension(f)
    &&& extension_of(f).len() == target.len()
    &&& forall|i: int|
        0 <= i < target.len() ==> upper_code(extension_of(f)[i]) == upper_code(target[i])
}

/// Index of the last occurrence of `c` in `s`, if any.
pub fn find_last(s: &str, c: char) -> (r: Option<usize>)
    ensures
        r matches Some(k) ==> 0 <= k < s@.len() && last_index_of(s@, c) == k as int,
        r is None ==> last_index_of(s@, c) == -1,
{
    let n = s.unicode_len();
    let mut i: usize = 0;
    let mut r: Option<usize> = None;
    while i < n
        invariant
            n == s@.len(),
            i <= n,
            r matches Some(k) ==> k < i && last_index_of(s@.take(i as int), c) == k as int,
            r is None ==> last_index_of(s@.take(i as int), c) == -1,
        decreases n - i,
    {
        let ch = s.get_char(i);
        if ch == c {
            r = Some(i);
        }
        i = i + 1;
        proof {
            assert(s@.take(i as int) =~= s@.take(i as int - 1).push(s@[i - 1]));
            lemma_last_index_of_push(s@.take(i as int - 1), c, s@[i - 1]);
        }
    }
    proof {
        assert(s@.take(n as int) =~= s@);
    }
    r
}

/// Whether `name`'s extension equals `target_ext`, comparing ASCII letters
/// without regard to case.
pub fn extension_matches(name: &str, target_ext: &str) -> (r: bool)
    ensures
        r == ext_matches(name@, target_ext@),
{
    let n = name.unicode_len();
    let dot = match find_last(name, '.') {
        Some(k) if k > 0 => k,
        _ => {
            return false;
        },
    };
    let elen = n - (dot + 1);
    let tlen = target_ext.unicode_len();
    if elen != tlen {
        return false;
    }
    let mut i: usize = 0;
    while i < tlen
        invariant
            n == name@.len(),
            tlen == target_ext@.len(),
            0 < dot < n,
            last_index_of(name@, '.') == dot,
            elen == n - dot - 1,
            elen == tlen,
            i <= tlen,
            forall|j: int|
                0 <= j < i ==> upper_code(extension_of(name@)[j]) == upper_code(target_ext@[j]),
        decreases tlen - i,
    {
        let ec = name.get_char(dot + 1 + i);
        let tc = target_ext.get_char(i);
        let eu: u32 = {
            let v = ec as u32;
            if 97 <= v && v <= 122 {
                v - 32
            } else {
                v
            }
        };
        let tu: u32 = {
            let v = tc as u32;
            if 97 <= v && v <= 122 {
                v - 32
            } else {
                v
            }
        };
        if eu != tu {
            return false;
        }
        proof {
            assert(extension_of(name@)[i as int] == name@[dot + 1 + i]);
        }
        i = i + 1;
    }
    true
}

/// Computes the output path for one input path: the output directory, a
/// separator, the input's stem, a dot and the target extension. Fails
/// exactly when the input path has no stem.
pub fn to_output_filename(input_path: &str, output_dir: &str, output_extension: &str) -> (r: Result<
    String,
    ConvertError,
>)
    ensures
        r is Ok <==> has_stem(input_path@),
        r matches Ok(p) ==> p@ == output_dir@ + seq!['/'] + stem_of(file_name_of(input_path@))
            + seq!['.'] + output_extension@,
        r matches Err(e) ==> e == ConvertError::NoStemError,
{
    let n = input_path.unicode_len();
    let start = match find_last(input_path, '/') {
        Some(k) => k + 1,
        None => 0,
    };
    let fname = input_path.substring_char(start, n);
    proof {
        lemma_last_index_of_props(input_path@, '/');
        assert(fname@ =~= file_name_of(input_path@));
    }
    let flen = n - start;
    let stemless = flen == 0 || (flen == 1 && fname.get_char(0) == '.') || (flen == 2
        && fname.get_char(0) == '.' && fname.get_char(1) == '.');
    if stemless {
        proof {
            if flen == 1 && fname@[0] == '.' {
                assert(fname@ =~= seq!['.']);
            }
            if flen == 2 && fname@[0] == '.' && fname@[1] == '.' {
                assert(fname@ =~= seq!['.', '.']);
            }
        }
        return Err(ConvertError::NoStemError);
    }
    proof {
        if fname@ == seq!['.'] {
            assert(fname@.len() == 1 && fname@[0] == '.');
        }
        if fname@ == seq!['.', '.'] {
            assert(fname@.len() == 2 && fname@[0] == '.' && fname@[1] == '.');
        }
    }
    let stem_end = match find_last(fname, '.') {
        Some(k) if k > 0 => k,
        _ => flen,
    };
    let stem = fname.substring_char(0, stem_end);
    proof {
        lemma_last_index_of_props(fname@, '.');
        assert(stem@ =~= stem_of(file_name_of(input_path@)));
    }
    let mut out = output_dir.to_owned();
    out.append("/");
    out.append(stem);
    out.append(".");
    out.append(output_extension);
    proof {
        reveal_strlit("/");
        reveal_strlit(".");
        assert(("/")@ =~= seq!['/']);
        assert((".")@ =~= seq!['.']);
    }
    Ok(out)
}

/// The output name keeps the input's stem and carries the target extension:
/// for any path with a stem and any dot-free, separator-free, non-empty
/// extension, the computed output path's file name splits back into exactly
/// that stem and that extension.
pub proof fn lemma_output_keeps_stem(input_path: Seq<char>, output_dir: Seq<char>, ext: Seq<char>)
    requires
        has_stem(input_path),
        ext.len() > 0,
        forall|i: int| 0 <= i < ext.len() ==> ext[i] != '.' && ext[i] != '/',
    ensures
        ({
            let out = output_dir + seq!['/'] + stem_of(file_name_of(input_path)) + seq!['.'] + ext;
            &&& file_name_of(out) == stem_of(file_name_of(input_path)) + seq!['.'] + ext
            &&& stem_of(file_name_of(out)) == stem_of(file_name_of(input_path))
            &&& has_extension(file_name_of(out))
            &&& extension_of(file_name_of(out)) == ext
        }),
{
    let f = file_name_of(input_path);
    let s = stem_of(f);
    let out = output_dir + seq!['/'] + s + seq!['.'] + ext;
    lemma_last_index_of_props(input_path, '/');
    lemma_last_index_of_props(f, '.');
    // the file name of the input has no separator, hence neither has its stem
    assert(forall|j: int| 0 <= j < f.len() ==> f[j] != '/') by {
        assert(forall|j: int| 0 <= j < f.len() ==> f[j] == input_path[last_index_of(
            input_path,
            '/',
        ) + 1 + j]);
    }
    assert(forall|j: int| 0 <= j < s.len() ==> s[j] != '/');
    assert(s.len() >= 1);
    // the last separator of the output path is the one standing before the stem
    let d = output_dir.len() as int;
    assert(out[d] == '/');
    assert(forall|j: int| d < j < out.len() ==> out[j] != '/');
    lemma_last_index_of_witness(out, '/', d);
    assert(file_name_of(out) =~= s + seq!['.'] + ext);
    // the last dot of the output file name is the one standing before the extension
    let g = file_name_of(out);
    assert(g[s.len() as int] == '.');
    assert(forall|j: int| s.len() < j < g.len() ==> g[j] != '.');
    lemma_last_index_of_witness(g, '.', s.len() as int);
    assert(stem_of(g) =~= s);
    assert(extension_of(g) =~= ext);
}

} // verus!
