//! File paths as the dialogs handle them: compared by their components, and
//! shown as text.

use vstd::prelude::*;
use vstd::std_specs::cmp::PartialEqSpec;

verus! {

/// A file path, as the bytes that the operating system uses.
#[derive(Debug, Eq)]
pub struct FilePath {
    /// The bytes of the path.
    pub bytes: Vec<u8>,
}

/// The pieces of `s` between slashes.
pub open spec fn pieces(s: Seq<u8>) -> Seq<Seq<u8>>
    decreases s.len(),
{
    if s.len() == 0 {
        seq![Seq::empty()]
    } else {
        let before = pieces(s.drop_last());
        if s.last() == 0x2f {
            before.push(Seq::empty())
        } else {
            before.update(before.len() - 1, before.last().push(s.last()))
        }
    }
}

/// Whether the piece at position `i` names a component: empty pieces do not,
/// and `.` does only at the very start of a path.
pub open spec fn is_component(piece: Seq<u8>, i: int) -> bool {
    piece.len() > 0 && (piece != seq![0x2eu8] || i == 0)
}

/// The first `k` pieces that name components.
pub open spec fn components_of(pieces: Seq<Seq<u8>>, k: int) -> Seq<Seq<u8>>
    decreases k,
{
    if k <= 0 {
        Seq::empty()
    } else if is_component(pieces[k - 1], k - 1) {
        components_of(pieces, k - 1).push(pieces[k - 1])
    } else {
        components_of(pieces, k - 1)
    }
}

/// What a path denotes: whether it starts at the root, and its components.
/// Repeated and trailing slashes and inner `.` components make no difference.
pub open spec fn denotation(s: Seq<u8>) -> (bool, Seq<Seq<u8>>) {
    (s.len() > 0 && s[0] == 0x2f, components_of(pieces(s), pieces(s).len() as int))
}

impl View for FilePath {
    type V = (bool, Seq<Seq<u8>>);

    open spec fn view(&self) -> (bool, Seq<Seq<u8>>) {
        denotation(self.bytes@)
    }
}

/// The last component of a path, where it names a file: `.` and `..` do not.
pub open spec fn file_name_of(s: Seq<u8>) -> Option<Seq<u8>> {
    let components = denotation(s).1;
    if components.len() == 0 || components.last() == seq![0x2eu8] || components.last()
        == seq![0x2eu8, 0x2eu8] {
        None
    } else {
        Some(components.last())
    }
}

/// Whether the first `k` bytes of `s` denote `s` without its last component.
pub open spec fn leads_to_last(s: Seq<u8>, k: int) -> bool {
    denotation(s.subrange(0, k)) == (denotation(s).0, denotation(s).1.drop_last())
}

/// Whether `parent` is the path `s` without its last component, and without
/// anything behind what is left: no shorter beginning of `s` denotes that.
pub open spec fn is_parent(s: Seq<u8>, parent: Seq<u8>) -> bool {
    &&& parent.len() <= s.len()
    &&& parent == s.subrange(0, parent.len() as int)
    &&& leads_to_last(s, parent.len() as int)
    &&& forall|k: int| 0 <= k < parent.len() ==> !leads_to_last(s, k)
}

/// The text that stands for bytes: what they say in UTF-8, with a replacement
/// character for each sequence that is none.
pub uninterp spec fn lossy_text(bytes: Seq<u8>) -> Seq<char>;

/// `String::from_utf8_lossy`: the text of the bytes, which is what the
/// standard library shows for a path. Bytes that are valid UTF-8 are decoded
/// as they are.
#[verifier::external_body]
fn from_utf8_lossy(bytes: &Vec<u8>) -> (r: String)
    ensures
        r@ == lossy_text(bytes@),
        vstd::utf8::valid_utf8(bytes@) ==> r@ == vstd::utf8::decode_utf8(bytes@),
{
    String::from_utf8_lossy(bytes.as_slice()).into_owned()
}

/// How paths are built up: nothing and the root have no components, a name
/// alone is one, and a name behind a slash is one more. Only a path that begins
/// with a slash starts at the root.
pub proof fn names_are_components(directory: Seq<u8>, name: Seq<u8>)
    requires
        name.len() > 0,
        !name.contains(0x2f),
        name != seq![0x2eu8],
    ensures
        denotation(Seq::empty()) == (false, Seq::<Seq<u8>>::empty()),
        denotation(seq![0x2fu8]) == (true, Seq::<Seq<u8>>::empty()),
        denotation(name) == (false, seq![name]),
        denotation(seq![0x2eu8]) == (false, seq![seq![0x2eu8]]),
        directory.len() > 0 ==> denotation(directory + seq![0x2fu8] + name) == (
            denotation(directory).0,
            denotation(directory).1.push(name),
        ),
        denotation(seq![0x2fu8] + name) == (true, seq![name]),
{
    reveal_with_fuel(components_of, 3);
    reveal_with_fuel(pieces, 3);
    let none = Seq::<u8>::empty();
    lemma_pieces_of_name(name);
    lemma_pieces_of_name(seq![0x2eu8]);
    lemma_pieces_nonempty(directory);
    lemma_pieces_after_slash(directory, name);
    lemma_pieces_after_slash(none, name);
    lemma_pieces_after_slash(none, none);
    assert(none + seq![0x2fu8] + name =~= seq![0x2fu8] + name);
    assert(none + seq![0x2fu8] + none =~= seq![0x2fu8]);
    assert(denotation(none).1 =~= Seq::<Seq<u8>>::empty());
    assert(pieces(seq![0x2fu8]) =~= seq![none, none]);
    assert(denotation(seq![0x2fu8]).1 =~= Seq::<Seq<u8>>::empty());
    assert(denotation(name).1 =~= seq![name]);
    assert(denotation(seq![0x2eu8]).1 =~= seq![seq![0x2eu8]]);
    assert(pieces(seq![0x2fu8] + name) =~= seq![none, name]);
    assert(denotation(seq![0x2fu8] + name).1 =~= seq![name]);
    let s = directory + seq![0x2fu8] + name;
    let n = pieces(directory).len() as int;
    lemma_components_prefix(pieces(directory), pieces(s), n);
    if directory.len() > 0 {
        assert(s[0] == directory[0]);
    }
}

/// A slash at the end, a doubled slash and a `.` between slashes make no
/// difference.
pub proof fn idle_pieces_make_no_difference(s: Seq<u8>)
    requires
        s.len() > 0,
    ensures
        denotation(s + seq![0x2fu8]) == denotation(s),
        denotation(s + seq![0x2fu8, 0x2eu8]) == denotation(s),
{
    lemma_pieces_nonempty(s);
    let none = Seq::<u8>::empty();
    let n = pieces(s).len() as int;
    assert(!none.contains(0x2f));
    lemma_pieces_after_slash(s, none);
    assert(s + seq![0x2fu8] + none =~= s + seq![0x2fu8]);
    lemma_components_prefix(pieces(s), pieces(s + seq![0x2fu8]), n);
    let dot = seq![0x2eu8];
    assert(!dot.contains(0x2f));
    lemma_pieces_after_slash(s, dot);
    assert(s + seq![0x2fu8] + dot =~= s + seq![0x2fu8, 0x2eu8]);
    lemma_components_prefix(pieces(s), pieces(s + seq![0x2fu8, 0x2eu8]), n);
    assert((s + seq![0x2fu8])[0] == s[0]);
    assert((s + seq![0x2fu8, 0x2eu8])[0] == s[0]);
}

/// The parent of a name behind a directory is that directory, as it is written;
/// that of a name alone is the empty path, and that of a name at the root is the
/// root.
pub proof fn parent_precedes_the_name(directory: Seq<u8>, name: Seq<u8>, parent: Seq<u8>)
    requires
        name.len() > 0,
        !name.contains(0x2f),
        name != seq![0x2eu8],
        directory.len() > 0,
        directory.last() != 0x2f,
        directory.len() >= 2 && directory.last() == 0x2e ==> directory[directory.len() - 2] != 0x2f,
    ensures
        is_parent(directory + seq![0x2fu8] + name, parent) <==> parent == directory,
        is_parent(seq![0x2fu8] + name, parent) <==> parent == seq![0x2fu8],
        is_parent(name, parent) <==> parent == Seq::<u8>::empty(),
{
    names_are_components(directory, name);
    let s = directory + seq![0x2fu8] + name;
    assert(s.subrange(0, directory.len() as int) =~= directory);
    assert(denotation(s).1.drop_last() =~= denotation(directory).1);
    assert(leads_to_last(s, directory.len() as int));
    lemma_last_piece_counts(directory);
    assert forall|k: int| 0 <= k < directory.len() implies !leads_to_last(s, k) by {
        assert(s.subrange(0, k) =~= directory.subrange(0, k));
        lemma_weight_grows(directory.drop_last(), k);
        assert(directory.drop_last().subrange(0, k) =~= directory.subrange(0, k));
    }
    if is_parent(s, parent) && parent.len() > directory.len() {
        assert(leads_to_last(s, directory.len() as int));
    }
    if is_parent(s, parent) && parent.len() < directory.len() {
        assert(leads_to_last(s, parent.len() as int));
    }
    let none = Seq::<u8>::empty();
    let rooted = seq![0x2fu8] + name;
    assert(rooted.subrange(0, 1) =~= seq![0x2fu8]);
    assert(rooted.subrange(0, 0) =~= none);
    assert(denotation(rooted).1.drop_last() =~= Seq::<Seq<u8>>::empty());
    assert(leads_to_last(rooted, 1));
    assert(!leads_to_last(rooted, 0));
    if is_parent(rooted, parent) {
        assert(parent.len() == 1);
    }
    assert(name.subrange(0, 0) =~= none);
    assert(denotation(name).1.drop_last() =~= Seq::<Seq<u8>>::empty());
    assert(leads_to_last(name, 0));
    if is_parent(name, parent) {
        assert(parent.len() == 0);
        assert(parent =~= none);
    }
}

/// The number of bytes in all components.
spec fn weight(components: Seq<Seq<u8>>) -> int
    decreases components.len(),
{
    if components.len() == 0 {
        0
    } else {
        weight(components.drop_last()) + components.last().len()
    }
}

proof fn lemma_weight_step(s: Seq<u8>)
    requires
        s.len() > 0,
    ensures
        weight(denotation(s).1) >= weight(denotation(s.drop_last()).1),
        s.last() != 0x2f && is_component(pieces(s).last(), pieces(s).len() - 1) ==> weight(
            denotation(s).1,
        ) > weight(denotation(s.drop_last()).1),
{
    let t = s.drop_last();
    let n = pieces(t).len() as int;
    lemma_pieces_nonempty(t);
    lemma_components_prefix(pieces(t), pieces(s), n - 1);
    if s.last() == 0x2f {
        lemma_components_prefix(pieces(t), pieces(s), n);
    } else {
        let head = components_of(pieces(t), n - 1);
        let before = pieces(t)[n - 1];
        let after = pieces(s)[n - 1];
        assert(after == before.push(s.last()));
        assert(head.push(before).drop_last() =~= head);
        assert(head.push(after).drop_last() =~= head);
        if is_component(before, n - 1) {
            assert(after.len() >= 2);
            assert(after != seq![0x2eu8]);
        }
    }
}

proof fn lemma_weight_grows(s: Seq<u8>, k: int)
    requires
        0 <= k <= s.len(),
    ensures
        weight(denotation(s.subrange(0, k)).1) <= weight(denotation(s).1),
    decreases s.len() - k,
{
    if k == s.len() {
        assert(s.subrange(0, k) =~= s);
    } else {
        lemma_weight_grows(s, k + 1);
        lemma_weight_step(s.subrange(0, k + 1));
        assert(s.subrange(0, k + 1).drop_last() =~= s.subrange(0, k));
    }
}

proof fn lemma_last_piece_counts(s: Seq<u8>)
    requires
        s.len() > 0,
        s.last() != 0x2f,
        s.len() >= 2 && s.last() == 0x2e ==> s[s.len() - 2] != 0x2f,
    ensures
        is_component(pieces(s).last(), pieces(s).len() - 1),
        weight(denotation(s).1) > weight(denotation(s.drop_last()).1),
{
    let t = s.drop_last();
    lemma_pieces_nonempty(t);
    let n = pieces(t).len() as int;
    let last = pieces(s).last();
    assert(last == pieces(t).last().push(s.last()));
    if last == seq![0x2eu8] && n > 1 {
        assert(last.last() == 0x2e);
        assert(pieces(t).last().len() == 0);
        assert(t.len() > 0);
        lemma_pieces_nonempty(t.drop_last());
        assert(t.last() == 0x2f);
        assert(t.last() == s[s.len() - 2]);
    }
    lemma_weight_step(s);
}

proof fn lemma_pieces_of_name(name: Seq<u8>)
    requires
        !name.contains(0x2f),
    ensures
        pieces(name) == seq![name],
    decreases name.len(),
{
    if name.len() == 0 {
        assert(name =~= Seq::empty());
    } else {
        let shorter = name.drop_last();
        assert(!shorter.contains(0x2f)) by {
            if shorter.contains(0x2f) {
                let i = choose|i: int| 0 <= i < shorter.len() && shorter[i] == 0x2f;
                assert(name[i] == 0x2f);
            }
        }
        lemma_pieces_of_name(shorter);
        assert(name.last() != 0x2f) by {
            assert(name[name.len() - 1] == name.last());
        }
        assert(shorter.push(name.last()) =~= name);
        assert(pieces(name) =~= seq![name]);
    }
}

/// What follows the last slash of a path is its file name.
pub proof fn file_name_follows_last_slash(directory: Seq<u8>, name: Seq<u8>)
    requires
        name.len() > 0,
        !name.contains(0x2f),
        name != seq![0x2eu8],
        name != seq![0x2eu8, 0x2eu8],
    ensures
        file_name_of(directory + seq![0x2fu8] + name) == Some(name),
{
    lemma_pieces_nonempty(directory);
    lemma_pieces_after_slash(directory, name);
}

proof fn lemma_pieces_after_slash(directory: Seq<u8>, name: Seq<u8>)
    requires
        !name.contains(0x2f),
    ensures
        pieces(directory + seq![0x2fu8] + name) == pieces(directory).push(name),
    decreases name.len(),
{
    let s = directory + seq![0x2fu8] + name;
    if name.len() == 0 {
        assert(s.drop_last() =~= directory);
        assert(name =~= Seq::empty());
    } else {
        let shorter = name.drop_last();
        assert(!shorter.contains(0x2f)) by {
            if shorter.contains(0x2f) {
                let i = choose|i: int| 0 <= i < shorter.len() && shorter[i] == 0x2f;
                assert(name[i] == 0x2f);
            }
        }
        lemma_pieces_after_slash(directory, shorter);
        assert(s.drop_last() =~= directory + seq![0x2fu8] + shorter);
        assert(s.last() == name.last());
        assert(shorter.push(name.last()) =~= name);
        assert(pieces(s) =~= pieces(directory).push(name));
    }
}

/// Every path with a component begins with what is left without the last one.
proof fn lemma_some_prefix_leads(s: Seq<u8>) -> (k: int)
    requires
        denotation(s).1.len() > 0,
    ensures
        0 <= k <= s.len(),
        leads_to_last(s, k),
    decreases s.len(),
{
    reveal_with_fuel(components_of, 2);
    if s.len() == 0 {
        0
    } else {
        let t = s.drop_last();
        let n = pieces(t).len() as int;
        lemma_pieces_nonempty(t);
        lemma_components_prefix(pieces(t), pieces(s), n - 1);
        if s.last() == 0x2f {
            lemma_components_prefix(pieces(t), pieces(s), n);
            assert(denotation(s).1 == denotation(t).1);
        }
        if denotation(s).1 == denotation(t).1 || is_component(pieces(t)[n - 1], n - 1) {
            let k = lemma_some_prefix_leads(t);
            assert(t.subrange(0, k) =~= s.subrange(0, k));
            assert(denotation(s).0 == denotation(t).0);
            if denotation(s).1 != denotation(t).1 {
                assert(is_component(pieces(s)[n - 1], n - 1));
                assert(denotation(s).1.drop_last() =~= components_of(pieces(t), n - 1));
                assert(denotation(t).1.drop_last() =~= components_of(pieces(t), n - 1));
            }
            k
        } else {
            assert(s.subrange(0, t.len() as int) =~= t);
            assert(denotation(s).1.drop_last() =~= denotation(t).1);
            assert(denotation(s).0 == denotation(t).0) by {
                if t.len() == 0 {
                    assert(s.last() == s[0]);
                }
            }
            t.len() as int
        }
    }
}

proof fn lemma_pieces_nonempty(s: Seq<u8>)
    ensures
        pieces(s).len() > 0,
    decreases s.len(),
{
    if s.len() > 0 {
        lemma_pieces_nonempty(s.drop_last());
    }
}

fn copy_bytes(bytes: &Vec<u8>) -> (r: Vec<u8>)
    ensures
        r@ == bytes@,
{
    let mut r: Vec<u8> = Vec::new();
    let mut i: usize = 0;
    while i < bytes.len()
        invariant
            i <= bytes.len(),
            r@ == bytes@.subrange(0, i as int),
        decreases bytes.len() - i,
    {
        r.push(bytes[i]);
        i = i + 1;
        assert(r@ =~= bytes@.subrange(0, i as int));
    }
    assert(bytes@.subrange(0, i as int) =~= bytes@);
    r
}

fn same_bytes(a: &Vec<u8>, b: &Vec<u8>) -> (r: bool)
    ensures
        r == (a@ == b@),
{
    if a.len() != b.len() {
        return false;
    }
    let mut i: usize = 0;
    while i < a.len()
        invariant
            i <= a.len(),
            a.len() == b.len(),
            forall|k: int| 0 <= k < i ==> a@[k] == b@[k],
        decreases a.len() - i,
    {
        if a[i] != b[i] {
            assert(a@[i as int] != b@[i as int]);
            return false;
        }
        i = i + 1;
    }
    assert(a@ =~= b@);
    true
}

/// The components of a path, as byte strings.
fn component_list(bytes: &Vec<u8>) -> (r: Vec<Vec<u8>>)
    ensures
        byte_strings(r@) == denotation(bytes@).1,
{
    let mut r: Vec<Vec<u8>> = Vec::new();
    let mut piece: Vec<u8> = Vec::new();
    let mut count: usize = 0;
    let mut i: usize = 0;
    assert(bytes@.subrange(0, 0) =~= Seq::empty());
    while i < bytes.len()
        invariant
            i <= bytes.len(),
            count <= i,
            pieces(bytes@.subrange(0, i as int)).len() == count + 1,
            piece@ == pieces(bytes@.subrange(0, i as int)).last(),
            byte_strings(r@) == components_of(
                pieces(bytes@.subrange(0, i as int)),
                count as int,
            ),
        decreases bytes.len() - i,
    {
        let ghost prefix = bytes@.subrange(0, i as int);
        let ghost longer = bytes@.subrange(0, i + 1);
        assert(longer.drop_last() =~= prefix);
        assert(longer.last() == bytes@[i as int]);
        let b: u8 = bytes[i];
        if b == 0x2f {
            let ghost before = byte_strings(r@);
            proof {
                lemma_components_prefix(pieces(prefix), pieces(longer), count as int);
                assert(pieces(longer)[count as int] == piece@);
            }
            if piece.len() > 0 && (!is_dot(&piece) || count == 0) {
                r.push(piece);
                assert(byte_strings(r@) =~= before.push(piece@));
            }
            piece = Vec::new();
            count = count + 1;
            assert(piece@ =~= Seq::empty());
        } else {
            proof {
                lemma_components_prefix(pieces(prefix), pieces(longer), count as int);
            }
            piece.push(b);
        }
        i = i + 1;
    }
    assert(bytes@.subrange(0, i as int) =~= bytes@);
    let ghost before = byte_strings(r@);
    if piece.len() > 0 && (!is_dot(&piece) || count == 0) {
        r.push(piece);
        assert(byte_strings(r@) =~= before.push(piece@));
    }
    r
}

/// The contents of a list of byte strings.
spec fn byte_strings(v: Seq<Vec<u8>>) -> Seq<Seq<u8>> {
    Seq::new(v.len(), |i: int| v[i]@)
}

proof fn lemma_components_prefix(a: Seq<Seq<u8>>, b: Seq<Seq<u8>>, k: int)
    requires
        k <= a.len(),
        k <= b.len(),
        forall|i: int| 0 <= i < k ==> a[i] == b[i],
    ensures
        components_of(a, k) == components_of(b, k),
    decreases k,
{
    if k > 0 {
        lemma_components_prefix(a, b, k - 1);
        assert(a[k - 1] == b[k - 1]);
    }
}

fn is_dot(piece: &Vec<u8>) -> (r: bool)
    ensures
        r == (piece@ == seq![0x2eu8]),
{
    let r = piece.len() == 1 && piece[0] == 0x2e;
    assert(r ==> piece@ =~= seq![0x2eu8]);
    r
}

fn is_dot_dot(piece: &Vec<u8>) -> (r: bool)
    ensures
        r == (piece@ == seq![0x2eu8, 0x2eu8]),
{
    let r = piece.len() == 2 && piece[0] == 0x2e && piece[1] == 0x2e;
    assert(r ==> piece@ =~= seq![0x2eu8, 0x2eu8]);
    r
}

fn same_list(a: &Vec<Vec<u8>>, b: &Vec<Vec<u8>>) -> (r: bool)
    ensures
        r == (byte_strings(a@) == byte_strings(b@)),
{
    let ghost left = byte_strings(a@);
    let ghost right = byte_strings(b@);
    if a.len() != b.len() {
        assert(left.len() != right.len());
        return false;
    }
    let mut i: usize = 0;
    while i < a.len()
        invariant
            i <= a.len(),
            a.len() == b.len(),
            left == byte_strings(a@),
            right == byte_strings(b@),
            forall|k: int| 0 <= k < i ==> left[k] == right[k],
        decreases a.len() - i,
    {
        if !same_bytes(&a[i], &b[i]) {
            assert(left[i as int] != right[i as int]);
            return false;
        }
        i = i + 1;
    }
    assert(left =~= right);
    true
}

impl FilePath {
    /// Whether two paths denote the same file by name: both start at the root
    /// or neither does, and their components agree.
    pub fn same_as(&self, other: &FilePath) -> (r: bool)
        ensures
            r == (self@ == other@),
    {
        let rooted: bool = self.bytes.len() > 0 && self.bytes[0] == 0x2f;
        let other_rooted: bool = other.bytes.len() > 0 && other.bytes[0] == 0x2f;
        rooted == other_rooted && same_list(
            &component_list(&self.bytes),
            &component_list(&other.bytes),
        )
    }

    /// The last component, where it names a file.
    pub fn file_name(&self) -> (r: Option<FilePath>)
        ensures
            r is Some == file_name_of(self.bytes@) is Some,
            r is Some ==> r->0.bytes@ == file_name_of(self.bytes@)->0,
    {
        let mut components: Vec<Vec<u8>> = component_list(&self.bytes);
        let ghost all = byte_strings(components@);
        match components.pop() {
            Some(last) => {
                assert(all.last() == last@);
                if is_dot(&last) || is_dot_dot(&last) {
                    None
                } else {
                    Some(FilePath { bytes: last })
                }
            },
            None => None,
        }
    }

    /// The path without its last component; the root and the empty path have
    /// no parent.
    pub fn parent(&self) -> (r: Option<FilePath>)
        ensures
            r is Some == (self@.1.len() > 0),
            r is Some ==> is_parent(self.bytes@, r->0.bytes@),
    {
        let mut left: Vec<Vec<u8>> = component_list(&self.bytes);
        if left.len() == 0 {
            assert(byte_strings(left@).len() == 0);
            return None;
        }
        assert(byte_strings(left@).len() > 0);
        left.pop();
        assert(byte_strings(left@) =~= self@.1.drop_last());
        let ghost found = lemma_some_prefix_leads(self.bytes@);
        let rooted: bool = self.bytes[0] == 0x2f;
        let mut prefix: FilePath = FilePath { bytes: Vec::new() };
        let mut k: usize = 0;
        while !prefix.denotes(rooted, &left)
            invariant
                k <= found <= self.bytes.len(),
                leads_to_last(self.bytes@, found),
                prefix.bytes@ == self.bytes@.subrange(0, k as int),
                byte_strings(left@) == self@.1.drop_last(),
                rooted == self@.0,
                forall|j: int| 0 <= j < k ==> !leads_to_last(self.bytes@, j),
            decreases found - k,
        {
            assert(!leads_to_last(self.bytes@, k as int));
            prefix.bytes.push(self.bytes[k]);
            k = k + 1;
            assert(prefix.bytes@ =~= self.bytes@.subrange(0, k as int));
        }
        Some(prefix)
    }

    /// Whether the path starts at the root as `rooted` says, and has the
    /// given components.
    fn denotes(&self, rooted: bool, components: &Vec<Vec<u8>>) -> (r: bool)
        ensures
            r == (self@ == (rooted, byte_strings(components@))),
    {
        let starts_at_root: bool = self.bytes.len() > 0 && self.bytes[0] == 0x2f;
        starts_at_root == rooted && same_list(&component_list(&self.bytes), components)
    }

    /// The path as text.
    pub fn display(&self) -> (r: String)
        ensures
            r@ == lossy_text(self.bytes@),
            vstd::utf8::valid_utf8(self.bytes@) ==> r@ == vstd::utf8::decode_utf8(self.bytes@),
    {
        from_utf8_lossy(&self.bytes)
    }

    /// The path with `suffix` appended to its last component.
    pub fn with_suffix(&self, suffix: &str) -> (r: FilePath)
        ensures
            r.bytes@ == self.bytes@ + vstd::utf8::encode_utf8(suffix@),
    {
        let mut bytes: Vec<u8> = copy_bytes(&self.bytes);
        let tail: &[u8] = suffix.as_bytes();
        let mut i: usize = 0;
        while i < tail.len()
            invariant
                i <= tail.len(),
                bytes@ == self.bytes@ + tail@.subrange(0, i as int),
            decreases tail.len() - i,
        {
            bytes.push(tail[i]);
            i = i + 1;
            assert(bytes@ =~= self.bytes@ + tail@.subrange(0, i as int));
        }
        assert(tail@.subrange(0, i as int) =~= tail@);
        FilePath { bytes }
    }
}

/// The bytes of an optional path.
pub open spec fn optional_bytes(p: Option<FilePath>) -> Option<Seq<u8>> {
    match p {
        Some(path) => Some(path.bytes@),
        None => None,
    }
}

/// A copy of an optional path.
pub fn copy_optional_path(p: &Option<FilePath>) -> (r: Option<FilePath>)
    ensures
        optional_bytes(r) == optional_bytes(*p),
{
    match p {
        Some(path) => Some(path.clone()),
        None => None,
    }
}

impl PartialEq for FilePath {
    fn eq(&self, other: &Self) -> (r: bool) {
        self.same_as(other)
    }
}

impl vstd::std_specs::cmp::PartialEqSpecImpl for FilePath {
    open spec fn obeys_eq_spec() -> bool {
        true
    }

    open spec fn eq_spec(&self, other: &Self) -> bool {
        self@ == other@
    }
}

impl Clone for FilePath {
    fn clone(&self) -> (r: Self)
        ensures
            r.bytes@ == self.bytes@,
            r@ == self@,
    {
        FilePath { bytes: copy_bytes(&self.bytes) }
    }
}

/// An optional path has the bytes of the path, where there is one.
pub proof fn optional_bytes_are_faithful(path: FilePath)
    ensures
        optional_bytes(Some(path)) == Some(path.bytes@),
        optional_bytes(None) is None,
{
}

/// Paths are equal where both are absolute or both relative, with the same
/// components.
pub proof fn equal_paths_have_equal_components(a: FilePath, b: FilePath)
    ensures
        a.eq_spec(&b) <==> denotation(a.bytes@) == denotation(b.bytes@),
        a@ == denotation(a.bytes@),
        denotation(a.bytes@).0 <==> a.bytes@.len() > 0 && a.bytes@[0] == 0x2f,
{
}

/// The file name of a path is its last component. The root, an empty path and a
/// path that ends in one or two dots have none.
pub proof fn file_name_is_the_last_component(s: Seq<u8>)
    ensures
        ({
            let components = denotation(s).1;
            let dots = components.len() > 0 && (components.last() == seq![0x2eu8]
                || components.last() == seq![0x2eu8, 0x2eu8]);
            &&& file_name_of(s) is None <==> components.len() == 0 || dots
            &&& file_name_of(s) matches Some(name) ==> name == components.last()
        }),
{
}

} // verus!
