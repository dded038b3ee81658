use vstd::prelude::*;

verus! {

/// The byte sequences of a list of byte vectors.
pub open spec fn byte_seqs(v: Seq<Vec<u8>>) -> Seq<Seq<u8>> {
    v.map_values(|b: Vec<u8>| b@)
}

/// `/`
pub open spec fn separator() -> u8 {
    0x2f
}

/// `.`
pub open spec fn dot() -> u8 {
    0x2e
}

/// A path segment between separators counts as a component unless it is empty
/// (repeated or trailing separators) or `.` (the current directory inside a path).
pub open spec fn kept_segment(segment: Seq<u8>) -> Seq<Seq<u8>> {
    if segment.len() == 0 || segment == seq![dot()] {
        Seq::empty()
    } else {
        seq![segment]
    }
}

/// The components that follow in `rest`, when `current` has been read of the
/// segment in progress.
pub open spec fn segments_from(rest: Seq<u8>, current: Seq<u8>) -> Seq<Seq<u8>>
    decreases rest.len(),
{
    if rest.len() == 0 {
        kept_segment(current)
    } else if rest[0] == separator() {
        kept_segment(current) + segments_from(rest.drop_first(), Seq::empty())
    } else {
        segments_from(rest.drop_first(), current.push(rest[0]))
    }
}

/// The first component of a Unix path that is not a plain name: the root `/` of an
/// absolute path, or `.` when a relative path starts with `.` as a whole segment.
pub open spec fn leading_component(path: Seq<u8>) -> Seq<Seq<u8>> {
    if path.len() > 0 && path[0] == separator() {
        seq![seq![separator()]]
    } else if path.len() > 0 && path[0] == dot() && (path.len() == 1 || path[1] == separator()) {
        seq![seq![dot()]]
    } else {
        Seq::empty()
    }
}

/// The components of a Unix path, as `std::path::Path` splits it: the root as `/`,
/// a leading current-directory segment as `.`, then every segment that is neither
/// empty nor `.` (`..` and names are kept as they are).
pub open spec fn components(path: Seq<u8>) -> Seq<Seq<u8>> {
    leading_component(path) + segments_from(path, Seq::empty())
}

/// Two paths name the same file location when their components agree (this is
/// how `std::path::Path` compares paths).
pub open spec fn same_path(a: Seq<u8>, b: Seq<u8>) -> bool {
    components(a) == components(b)
}

fn single(byte: u8) -> (v: Vec<u8>)
    ensures
        v@ == seq![byte],
{
    let mut v: Vec<u8> = Vec::new();
    v.push(byte);
    assert(v@ =~= seq![byte]);
    v
}

fn is_kept(segment: &Vec<u8>) -> (kept: bool)
    ensures
        kept ==> kept_segment(segment@) == seq![segment@],
        !kept ==> kept_segment(segment@) == Seq::<Seq<u8>>::empty(),
{
    if segment.len() == 0 {
        false
    } else if segment.len() == 1 && segment[0] == 0x2e {
        assert(segment@ =~= seq![dot()]);
        false
    } else {
        assert(segment@ != seq![dot()]) by {
            if segment@ == seq![dot()] {
                assert(segment@.len() == 1 && segment@[0] == dot());
            }
        }
        true
    }
}

/// Splits a Unix path into its components (see `components`).
pub fn path_components(path: &[u8]) -> (parts: Vec<Vec<u8>>)
    ensures
        byte_seqs(parts@) == components(path@),
{
    let mut parts: Vec<Vec<u8>> = Vec::new();
    if path.len() > 0 && path[0] == 0x2f {
        parts.push(single(0x2f));
    } else if path.len() > 0 && path[0] == 0x2e && (path.len() == 1 || path[1] == 0x2f) {
        parts.push(single(0x2e));
    }
    assert(byte_seqs(parts@) =~= leading_component(path@));
    let mut current: Vec<u8> = Vec::new();
    let mut i: usize = 0;
    assert(path@.skip(0) =~= path@);
    assert(current@ =~= Seq::<u8>::empty());
    while i < path.len()
        invariant
            i <= path@.len(),
            byte_seqs(parts@) + segments_from(path@.skip(i as int), current@)
                == components(path@),
        decreases path@.len() - i,
    {
        let ghost before = byte_seqs(parts@);
        let ghost rest = path@.skip(i as int);
        assert(rest[0] == path@[i as int]);
        assert(rest.drop_first() =~= path@.skip(i + 1));
        if path[i] == 0x2f {
            let ghost segment = current@;
            if is_kept(&current) {
                parts.push(current);
                assert(byte_seqs(parts@) =~= before + kept_segment(segment));
            } else {
                assert(byte_seqs(parts@) =~= before + kept_segment(segment));
            }
            current = Vec::new();
            assert(current@ =~= Seq::<u8>::empty());
            assert(segments_from(rest, segment) == kept_segment(segment) + segments_from(
                path@.skip(i + 1),
                current@,
            ));
            assert(byte_seqs(parts@) + segments_from(path@.skip(i + 1), current@) =~= before
                + segments_from(rest, segment));
        } else {
            let ghost segment = current@;
            current.push(path[i]);
            assert(segments_from(rest, segment) == segments_from(path@.skip(i + 1), current@));
        }
        i = i + 1;
    }
    assert(path@.skip(i as int) =~= Seq::<u8>::empty());
    let ghost before = byte_seqs(parts@);
    let ghost segment = current@;
    if is_kept(&current) {
        parts.push(current);
    }
    assert(byte_seqs(parts@) =~= before + kept_segment(segment));
    parts
}

/// Whether two lists of components are equal, component by component.
pub fn components_equal(a: &Vec<Vec<u8>>, b: &Vec<Vec<u8>>) -> (equal: bool)
    ensures
        equal == (byte_seqs(a@) == byte_seqs(b@)),
{
    if a.len() != b.len() {
        assert(byte_seqs(a@).len() != byte_seqs(b@).len());
        return false;
    }
    let mut i: usize = 0;
    while i < a.len()
        invariant
            a@.len() == b@.len(),
            i <= a@.len(),
            forall|j: int| 0 <= j < i ==> a@[j]@ == b@[j]@,
        decreases a@.len() - i,
    {
        if !crate::subscribers::bytes_equal(a[i].as_slice(), b[i].as_slice()) {
            assert(byte_seqs(a@)[i as int] != byte_seqs(b@)[i as int]);
            return false;
        }
        i = i + 1;
    }
    assert(byte_seqs(a@) =~= byte_seqs(b@));
    true
}

/// Whether two paths name the same location (see `same_path`).
pub fn paths_equal(a: &[u8], b: &[u8]) -> (equal: bool)
    ensures
        equal == same_path(a@, b@),
{
    components_equal(&path_components(a), &path_components(b))
}

} // verus!
