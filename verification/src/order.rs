//! The order in which media files are sorted before duplicates are dropped:
//! by path, as `camino` orders paths (component by component), then images
//! before audio, then by preference, then by position in the archive.

use crate::paths::{components_of, path_components};
use crate::{priority, FileData, FileKind};
use vstd::prelude::*;

verus! {

/// The outcome of comparing two values.
#[derive(Debug, Clone, Copy, PartialEq, Eq, Hash, Structural)]
pub enum Order {
    Less,
    Equal,
    Greater,
}

/// The outcome of comparing the other way round.
pub open spec fn flip(o: Order) -> Order {
    match o {
        Order::Less => Order::Greater,
        Order::Equal => Order::Equal,
        Order::Greater => Order::Less,
    }
}

/// How two integers compare.
pub open spec fn int_order(a: int, b: int) -> Order {
    if a < b {
        Order::Less
    } else if a == b {
        Order::Equal
    } else {
        Order::Greater
    }
}

/// Lexicographic comparison of two sequences by an element comparison: the first
/// differing element decides, and a proper prefix comes first.
pub open spec fn lex_order<T>(a: Seq<T>, b: Seq<T>, elem: spec_fn(T, T) -> Order) -> Order
    decreases a.len(),
{
    if a.len() == 0 {
        if b.len() == 0 {
            Order::Equal
        } else {
            Order::Less
        }
    } else if b.len() == 0 {
        Order::Greater
    } else {
        match elem(a[0], b[0]) {
            Order::Equal => lex_order(a.drop_first(), b.drop_first(), elem),
            o => o,
        }
    }
}

/// Whether a comparison is a total order: antisymmetric, equal exactly on equal
/// values, and transitive.
pub open spec fn is_total_order<T>(cmp: spec_fn(T, T) -> Order) -> bool {
    &&& forall|x: T, y: T| #[trigger] cmp(x, y) == flip(cmp(y, x))
    &&& forall|x: T, y: T| #[trigger] cmp(x, y) == Order::Equal <==> x == y
    &&& forall|x: T, y: T, z: T|
        #[trigger] cmp(x, y) != Order::Greater && #[trigger] cmp(y, z) != Order::Greater ==> cmp(
            x,
            z,
        ) != Order::Greater
}

/// Characters compare by code point, which is also how their UTF-8 bytes compare.
pub open spec fn char_order() -> spec_fn(char, char) -> Order {
    |x: char, y: char| int_order(x as int, y as int)
}

/// Texts compare lexicographically by character, which is how `str` compares them.
pub open spec fn text_order(a: Seq<char>, b: Seq<char>) -> Order {
    lex_order(a, b, char_order())
}

/// Path components compare first by their variant (prefix, root, `.`, `..`, name,
/// in the order `camino::Utf8Component` declares them), then by their text. (Windows
/// prefixes, which `camino` orders by their parsed form, are ordered by text here;
/// they do not occur on other systems.)
pub open spec fn part_order(p: (u8, Seq<char>), q: (u8, Seq<char>)) -> Order {
    match int_order(p.0 as int, q.0 as int) {
        Order::Equal => text_order(p.1, q.1),
        o => o,
    }
}

/// `part_order` as a value.
pub open spec fn part_order_fn() -> spec_fn((u8, Seq<char>), (u8, Seq<char>)) -> Order {
    |p: (u8, Seq<char>), q: (u8, Seq<char>)| part_order(p, q)
}

/// Paths compare lexicographically by component, as `camino::Utf8Path` compares them.
pub open spec fn path_order(a: Seq<(u8, Seq<char>)>, b: Seq<(u8, Seq<char>)>) -> Order {
    lex_order(a, b, part_order_fn())
}

/// Sorting key of a media file: path components, kind rank (images first) and preference.
pub type KeyView = (Seq<(u8, Seq<char>)>, u8, u8);

/// The rank of a kind among media: images come before audio.
pub open spec fn kind_rank(kind: FileKind) -> u8 {
    match kind {
        FileKind::Image(_) => 0,
        FileKind::Audio(_) => 1,
        _ => 2,
    }
}

/// The sorting key of a file.
pub open spec fn key_of(d: FileData) -> KeyView {
    (path_components(d.path@), kind_rank(d.kind), priority(d.kind))
}

/// The order of two entries, each a key with its position: key by key, then position.
pub open spec fn entry_order(k1: KeyView, i: int, k2: KeyView, j: int) -> Order {
    match path_order(k1.0, k2.0) {
        Order::Equal => match int_order(k1.1 as int, k2.1 as int) {
            Order::Equal => match int_order(k1.2 as int, k2.2 as int) {
                Order::Equal => int_order(i, j),
                o => o,
            },
            o => o,
        },
        o => o,
    }
}

/// The order of the entries at positions `i` and `j` of `keys`.
pub open spec fn index_order(keys: Seq<KeyView>, i: int, j: int) -> Order {
    entry_order(keys[i], i, keys[j], j)
}

/// `index_order` at positions given as machine integers.
pub open spec fn index_order_at(keys: Seq<KeyView>, i: usize, j: usize) -> Order {
    index_order(keys, i as int, j as int)
}

/// Whether `index_order` is a total order on the positions of `keys`.
pub open spec fn index_order_is_total(keys: Seq<KeyView>) -> bool {
    &&& forall|i: int, j: int|
        0 <= i < keys.len() && 0 <= j < keys.len() ==> #[trigger] index_order(keys, i, j) == flip(
            index_order(keys, j, i),
        )
    &&& forall|i: int, j: int|
        0 <= i < keys.len() && 0 <= j < keys.len() ==> (#[trigger] index_order(keys, i, j)
            == Order::Equal <==> i == j)
    &&& forall|i: int, j: int, k: int|
        0 <= i < keys.len() && 0 <= j < keys.len() && 0 <= k < keys.len() && #[trigger] index_order(
            keys,
            i,
            j,
        ) != Order::Greater && #[trigger] index_order(keys, j, k) != Order::Greater
            ==> index_order(keys, i, k) != Order::Greater
}

proof fn lemma_strict_trans<T>(cmp: spec_fn(T, T) -> Order, x: T, y: T, z: T)
    requires
        is_total_order(cmp),
        cmp(x, y) != Order::Greater,
        cmp(y, z) != Order::Greater,
        cmp(x, y) == Order::Less || cmp(y, z) == Order::Less,
    ensures
        cmp(x, z) == Order::Less,
{
    assert(cmp(x, z) != Order::Greater);
    if cmp(x, z) == Order::Equal {
        assert(x == z);
        assert(cmp(y, x) == flip(cmp(x, y)));
    }
}

proof fn lemma_lex_flip<T>(a: Seq<T>, b: Seq<T>, cmp: spec_fn(T, T) -> Order)
    requires
        is_total_order(cmp),
    ensures
        lex_order(a, b, cmp) == flip(lex_order(b, a, cmp)),
    decreases a.len(),
{
    if a.len() > 0 && b.len() > 0 {
        assert(cmp(a[0], b[0]) == flip(cmp(b[0], a[0])));
        lemma_lex_flip(a.drop_first(), b.drop_first(), cmp);
    }
}

proof fn lemma_lex_equal<T>(a: Seq<T>, b: Seq<T>, cmp: spec_fn(T, T) -> Order)
    requires
        is_total_order(cmp),
    ensures
        lex_order(a, b, cmp) == Order::Equal <==> a == b,
    decreases a.len(),
{
    if a.len() > 0 && b.len() > 0 {
        lemma_lex_equal(a.drop_first(), b.drop_first(), cmp);
        if lex_order(a, b, cmp) == Order::Equal {
            assert(cmp(a[0], b[0]) == Order::Equal);
            assert(a[0] == b[0]);
            assert(a.drop_first() == b.drop_first());
            assert(a =~= seq![a[0]] + a.drop_first());
            assert(b =~= seq![b[0]] + b.drop_first());
        }
        if a == b {
            assert(cmp(a[0], a[0]) == Order::Equal);
            assert(a.drop_first() == b.drop_first());
        }
    } else if a.len() == 0 && b.len() == 0 {
        assert(a =~= b);
    } else {
        assert(a.len() != b.len());
    }
}

proof fn lemma_lex_trans<T>(a: Seq<T>, b: Seq<T>, c: Seq<T>, cmp: spec_fn(T, T) -> Order)
    requires
        is_total_order(cmp),
        lex_order(a, b, cmp) != Order::Greater,
        lex_order(b, c, cmp) != Order::Greater,
    ensures
        lex_order(a, c, cmp) != Order::Greater,
    decreases a.len(),
{
    if a.len() > 0 && b.len() > 0 && c.len() > 0 {
        let e1 = cmp(a[0], b[0]);
        let e2 = cmp(b[0], c[0]);
        if e1 == Order::Less || e2 == Order::Less {
            lemma_strict_trans(cmp, a[0], b[0], c[0]);
        } else {
            assert(a[0] == b[0]);
            assert(b[0] == c[0]);
            lemma_lex_trans(a.drop_first(), b.drop_first(), c.drop_first(), cmp);
        }
    }
}

proof fn lemma_lex_total<T>(cmp: spec_fn(T, T) -> Order)
    requires
        is_total_order(cmp),
    ensures
        is_total_order(|a: Seq<T>, b: Seq<T>| lex_order(a, b, cmp)),
{
    let f = |a: Seq<T>, b: Seq<T>| lex_order(a, b, cmp);
    assert forall|x: Seq<T>, y: Seq<T>| #[trigger] f(x, y) == flip(f(y, x)) by {
        lemma_lex_flip(x, y, cmp);
    }
    assert forall|x: Seq<T>, y: Seq<T>| #[trigger] f(x, y) == Order::Equal <==> x == y by {
        lemma_lex_equal(x, y, cmp);
    }
    assert forall|x: Seq<T>, y: Seq<T>, z: Seq<T>|
        #[trigger] f(x, y) != Order::Greater && #[trigger] f(y, z) != Order::Greater implies f(
        x,
        z,
    ) != Order::Greater by {
        lemma_lex_trans(x, y, z, cmp);
    }
}

proof fn lemma_char_total()
    ensures
        is_total_order(char_order()),
{
    let f = char_order();
    assert forall|x: char, y: char| #[trigger] f(x, y) == Order::Equal <==> x == y by {
        if x as int == y as int {
            assert(x == y);
        }
    }
}

proof fn lemma_part_total()
    ensures
        is_total_order(part_order_fn()),
{
    lemma_char_total();
    lemma_lex_total(char_order());
    let t = |a: Seq<char>, b: Seq<char>| lex_order(a, b, char_order());
    let f = part_order_fn();
    assert forall|x: (u8, Seq<char>), y: (u8, Seq<char>)| #[trigger] f(x, y) == flip(f(y, x)) by {
        assert(t(x.1, y.1) == flip(t(y.1, x.1)));
    }
    assert forall|x: (u8, Seq<char>), y: (u8, Seq<char>)|
        #[trigger] f(x, y) == Order::Equal <==> x == y by {
        assert(t(x.1, y.1) == Order::Equal <==> x.1 == y.1);
    }
    assert forall|x: (u8, Seq<char>), y: (u8, Seq<char>), z: (u8, Seq<char>)|
        #[trigger] f(x, y) != Order::Greater && #[trigger] f(y, z) != Order::Greater implies f(
        x,
        z,
    ) != Order::Greater by {
        if x.0 == y.0 && y.0 == z.0 {
            assert(t(x.1, y.1) != Order::Greater);
            assert(t(y.1, z.1) != Order::Greater);
        }
    }
}

/// Paths, as `path_order` compares them, are totally ordered.
pub proof fn lemma_path_order_total()
    ensures
        is_total_order(|a: Seq<(u8, Seq<char>)>, b: Seq<(u8, Seq<char>)>| path_order(a, b)),
{
    lemma_part_total();
    lemma_lex_total(part_order_fn());
    let p = |a: Seq<(u8, Seq<char>)>, b: Seq<(u8, Seq<char>)>| path_order(a, b);
    let l = |a: Seq<(u8, Seq<char>)>, b: Seq<(u8, Seq<char>)>| lex_order(a, b, part_order_fn());
    assert forall|x: Seq<(u8, Seq<char>)>, y: Seq<(u8, Seq<char>)>| #[trigger] p(x, y) == l(x, y) by {}
    assert forall|x: Seq<(u8, Seq<char>)>, y: Seq<(u8, Seq<char>)>| #[trigger] p(x, y) == flip(
        p(y, x),
    ) by {
        assert(l(x, y) == flip(l(y, x)));
    }
    assert forall|x: Seq<(u8, Seq<char>)>, y: Seq<(u8, Seq<char>)>|
        #[trigger] p(x, y) == Order::Equal <==> x == y by {
        assert(l(x, y) == Order::Equal <==> x == y);
    }
    assert forall|x: Seq<(u8, Seq<char>)>, y: Seq<(u8, Seq<char>)>, z: Seq<(u8, Seq<char>)>|
        #[trigger] p(x, y) != Order::Greater && #[trigger] p(y, z) != Order::Greater implies p(
        x,
        z,
    ) != Order::Greater by {
        assert(l(x, y) != Order::Greater);
        assert(l(y, z) != Order::Greater);
    }
}

/// The facts about `path_order` that the entry order rests on, for given paths.
pub proof fn lemma_path_order_facts(a: Seq<(u8, Seq<char>)>, b: Seq<(u8, Seq<char>)>)
    ensures
        path_order(a, b) == flip(path_order(b, a)),
        path_order(a, b) == Order::Equal <==> a == b,
        forall|c: Seq<(u8, Seq<char>)>|
            path_order(a, b) != Order::Greater && #[trigger] path_order(b, c) != Order::Greater
                ==> path_order(a, c) != Order::Greater,
{
    lemma_path_order_total();
    let p = |a: Seq<(u8, Seq<char>)>, b: Seq<(u8, Seq<char>)>| path_order(a, b);
    assert(p(a, b) == flip(p(b, a)));
    assert(p(a, b) == Order::Equal <==> a == b);
    assert forall|c: Seq<(u8, Seq<char>)>|
        path_order(a, b) != Order::Greater && #[trigger] path_order(b, c) != Order::Greater
            implies path_order(a, c) != Order::Greater by {
        assert(p(a, b) != Order::Greater);
        assert(p(b, c) != Order::Greater);
    }
}

/// The order on entries of `keys` is a total order on their positions.
pub proof fn lemma_index_order_total(keys: Seq<KeyView>)
    ensures
        index_order_is_total(keys),
{
    assert forall|i: int, j: int|
        0 <= i < keys.len() && 0 <= j < keys.len() implies #[trigger] index_order(keys, i, j)
        == flip(index_order(keys, j, i)) by {
        lemma_path_order_facts(keys[i].0, keys[j].0);
    }
    assert forall|i: int, j: int|
        0 <= i < keys.len() && 0 <= j < keys.len() implies (#[trigger] index_order(keys, i, j)
        == Order::Equal <==> i == j) by {
        lemma_path_order_facts(keys[i].0, keys[j].0);
    }
    assert forall|i: int, j: int, k: int|
        0 <= i < keys.len() && 0 <= j < keys.len() && 0 <= k < keys.len() && #[trigger] index_order(
            keys,
            i,
            j,
        ) != Order::Greater && #[trigger] index_order(keys, j, k) != Order::Greater implies index_order(
        keys,
        i,
        k,
    ) != Order::Greater by {
        lemma_path_order_facts(keys[i].0, keys[j].0);
        lemma_path_order_facts(keys[j].0, keys[k].0);
        lemma_path_order_facts(keys[i].0, keys[k].0);
        assert(path_order(keys[i].0, keys[j].0) != Order::Greater);
        assert(path_order(keys[j].0, keys[k].0) != Order::Greater);
    }
}

/// A component of a path: its variant rank and its text.
#[derive(Debug)]
pub struct PathPart {
    pub rank: u8,
    pub text: Vec<char>,
}

impl View for PathPart {
    type V = (u8, Seq<char>);

    open spec fn view(&self) -> (u8, Seq<char>) {
        (self.rank, self.text@)
    }
}

/// The sorting key of a media file.
#[derive(Debug)]
pub struct MediaKey {
    pub parts: Vec<PathPart>,
    pub kind_rank: u8,
    pub priority: u8,
}

impl View for MediaKey {
    type V = KeyView;

    open spec fn view(&self) -> KeyView {
        (self.parts@.map_values(|p: PathPart| p@), self.kind_rank, self.priority)
    }
}

/// The views of a list of keys.
pub open spec fn key_views(keys: Seq<MediaKey>) -> Seq<KeyView> {
    keys.map_values(|k: MediaKey| k@)
}

/// Compares two texts lexicographically by character.
pub fn compare_text(a: &Vec<char>, b: &Vec<char>) -> (r: Order)
    ensures
        r == text_order(a@, b@),
{
    let mut i: usize = 0;
    assert(a@.skip(0) =~= a@);
    assert(b@.skip(0) =~= b@);
    while i < a.len() && i < b.len()
        invariant
            i <= a@.len(),
            i <= b@.len(),
            text_order(a@, b@) == lex_order(a@.skip(i as int), b@.skip(i as int), char_order()),
        decreases a.len() - i,
    {
        let ghost sa = a@.skip(i as int);
        let ghost sb = b@.skip(i as int);
        assert(sa[0] == a@[i as int]);
        assert(sb[0] == b@[i as int]);
        if a[i] < b[i] {
            return Order::Less;
        } else if a[i] > b[i] {
            return Order::Greater;
        }
        assert(sa.drop_first() =~= a@.skip(i + 1));
        assert(sb.drop_first() =~= b@.skip(i + 1));
        i = i + 1;
    }
    if i < a.len() {
        Order::Greater
    } else if i < b.len() {
        Order::Less
    } else {
        Order::Equal
    }
}

/// Compares two path components.
pub fn compare_part(p: &PathPart, q: &PathPart) -> (r: Order)
    ensures
        r == part_order(p@, q@),
{
    if p.rank < q.rank {
        Order::Less
    } else if p.rank > q.rank {
        Order::Greater
    } else {
        compare_text(&p.text, &q.text)
    }
}

/// Compares two paths component by component.
pub fn compare_parts(a: &Vec<PathPart>, b: &Vec<PathPart>) -> (r: Order)
    ensures
        r == path_order(a@.map_values(|p: PathPart| p@), b@.map_values(|p: PathPart| p@)),
{
    let ghost va = a@.map_values(|p: PathPart| p@);
    let ghost vb = b@.map_values(|p: PathPart| p@);
    let mut i: usize = 0;
    assert(va.skip(0) =~= va);
    assert(vb.skip(0) =~= vb);
    while i < a.len() && i < b.len()
        invariant
            va == a@.map_values(|p: PathPart| p@),
            vb == b@.map_values(|p: PathPart| p@),
            i <= a@.len(),
            i <= b@.len(),
            path_order(va, vb) == lex_order(va.skip(i as int), vb.skip(i as int), part_order_fn()),
        decreases a.len() - i,
    {
        let ghost sa = va.skip(i as int);
        let ghost sb = vb.skip(i as int);
        assert(sa[0] == a@[i as int]@);
        assert(sb[0] == b@[i as int]@);
        let o = compare_part(&a[i], &b[i]);
        match o {
            Order::Equal => {},
            _ => {
                return o;
            },
        }
        assert(sa.drop_first() =~= va.skip(i + 1));
        assert(sb.drop_first() =~= vb.skip(i + 1));
        i = i + 1;
    }
    if i < a.len() {
        Order::Greater
    } else if i < b.len() {
        Order::Less
    } else {
        Order::Equal
    }
}

/// Whether two paths, given by their components, are the same path.
pub fn same_parts(a: &Vec<PathPart>, b: &Vec<PathPart>) -> (r: bool)
    ensures
        r == (a@.map_values(|p: PathPart| p@) == b@.map_values(|p: PathPart| p@)),
{
    let o = compare_parts(a, b);
    proof {
        lemma_path_order_facts(a@.map_values(|p: PathPart| p@), b@.map_values(|p: PathPart| p@));
    }
    match o {
        Order::Equal => true,
        _ => false,
    }
}

/// Compares the entries at positions `i` and `j` of `keys`.
pub fn compare_keys(keys: &Vec<MediaKey>, i: usize, j: usize) -> (r: Order)
    requires
        i < keys@.len(),
        j < keys@.len(),
    ensures
        r == index_order_at(key_views(keys@), i, j),
{
    let a = &keys[i];
    let b = &keys[j];
    let o = compare_parts(&a.parts, &b.parts);
    match o {
        Order::Equal => {},
        _ => {
            return o;
        },
    }
    if a.kind_rank < b.kind_rank {
        Order::Less
    } else if a.kind_rank > b.kind_rank {
        Order::Greater
    } else if a.priority < b.priority {
        Order::Less
    } else if a.priority > b.priority {
        Order::Greater
    } else if i < j {
        Order::Less
    } else if i > j {
        Order::Greater
    } else {
        Order::Equal
    }
}

/// The sorting key of a file.
pub fn media_key(d: &FileData) -> (r: MediaKey)
    ensures
        r@ == key_of(*d),
{
    let parts = components_of(d.path.as_str());
    let kind_rank: u8 = match d.kind {
        FileKind::Image(_) => 0,
        FileKind::Audio(_) => 1,
        _ => 2,
    };
    let p = crate::get_priority(d);
    let r = MediaKey { parts, kind_rank, priority: p };
    assert(r.parts@.map_values(|q: PathPart| q@) =~= path_components(d.path@));
    r
}

} // verus!
