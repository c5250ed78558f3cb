//! Which files of the sheet directory hold sheets, and which files seed an empty one.
use vstd::prelude::*;
use crate::sheet::{CheatSheet, SheetModel};
use crate::defaults::{default_cheat_sheets, default_sheets_model};
use crate::text::text_chars;

verus! {

/// The index of the last `'.'` in `name`, if any.
pub open spec fn last_dot(name: Seq<char>) -> Option<int>
    decreases name.len(),
{
    if name.len() == 0 {
        None
    } else if name.last() == '.' {
        Some(name.len() - 1)
    } else {
        last_dot(name.drop_last())
    }
}

/// The extension of a file name, as `std::path::Path::extension` gives it: the text
/// after the last `'.'`, unless the name is `".."`, has no `'.'`, or has its only
/// `'.'` in front.
pub open spec fn file_extension(name: Seq<char>) -> Option<Seq<char>> {
    if name == seq!['.', '.'] {
        None
    } else {
        match last_dot(name) {
            Some(k) => if k == 0 {
                None
            } else {
                Some(name.subrange(k + 1, name.len() as int))
            },
            None => None,
        }
    }
}

/// The extension that marks a sheet file.
pub open spec fn json_extension() -> Seq<char> {
    seq!['j', 's', 'o', 'n']
}

/// A file of that name holds a sheet.
pub open spec fn is_sheet_file_name(name: Seq<char>) -> bool {
    file_extension(name) == Some(json_extension())
}

/// Some of the names is a sheet file's.
pub open spec fn has_sheet_file(names: Seq<Seq<char>>) -> bool {
    exists|i: int| 0 <= i < names.len() && is_sheet_file_name(#[trigger] names[i])
}

/// The sheet files among `names`, in the order given.
pub open spec fn sheet_file_names(names: Seq<Seq<char>>) -> Seq<Seq<char>> {
    names.filter(|n: Seq<char>| is_sheet_file_name(n))
}

/// The file a sheet with that id is written to.
pub open spec fn sheet_file_name_of(id: Seq<char>) -> Seq<char> {
    id + seq!['.'] + json_extension()
}

/// The names of the files that seeding a directory holding `names` writes: none if
/// the directory already holds a sheet file, else one per built-in sheet.
pub open spec fn seeded_file_names(names: Seq<Seq<char>>) -> Seq<Seq<char>> {
    if has_sheet_file(names) {
        Seq::empty()
    } else {
        Seq::new(default_sheets_model().len(), |i: int| sheet_file_name_of(default_sheets_model()[i].id))
    }
}

/// `last_dot` finds a `'.'`, and no `'.'` follows it.
proof fn lemma_last_dot(name: Seq<char>)
    ensures
        last_dot(name) is Some ==> {
            let k = last_dot(name)->0;
            &&& 0 <= k < name.len()
            &&& name[k] == '.'
            &&& forall|j: int| k < j < name.len() ==> name[j] != '.'
        },
        last_dot(name) is None ==> forall|j: int| 0 <= j < name.len() ==> name[j] != '.',
    decreases name.len(),
{
    if name.len() > 0 && name.last() != '.' {
        let d = name.drop_last();
        lemma_last_dot(d);
        assert forall|j: int| 0 <= j < d.len() implies name[j] == d[j] by {}
    }
}

/// A name with a `'.'` at `k` and none after it has its last dot at `k`.
proof fn lemma_last_dot_at(name: Seq<char>, k: int)
    requires
        0 <= k < name.len(),
        name[k] == '.',
        forall|j: int| k < j < name.len() ==> name[j] != '.',
    ensures
        last_dot(name) == Some(k),
    decreases name.len(),
{
    if name.last() != '.' {
        lemma_last_dot_at(name.drop_last(), k);
    }
}

/// Whether a file of that name holds a sheet: its extension is `json`.
pub fn is_sheet_file(name: &str) -> (r: bool)
    ensures
        r == is_sheet_file_name(name@),
{
    let cs = text_chars(name);
    let n = cs.len();
    let mut k = n;
    while k > 0 && cs[k - 1] != '.'
        invariant
            cs@ == name@,
            n == cs@.len(),
            k <= n,
            forall|j: int| k <= j < n ==> cs@[j] != '.',
        decreases k,
    {
        k = k - 1;
    }
    proof {
        lemma_last_dot(name@);
        if k > 0 {
            lemma_last_dot_at(name@, k - 1);
        }
    }
    if k <= 1 {
        // no dot, or the only dot in front: no extension
        proof {
            if k == 0 {
                assert(last_dot(name@) is None);
            } else {
                assert(last_dot(name@) == Some(0int));
            }
            assert(file_extension(name@) is None);
        }
        return false;
    }
    // the last dot is at k - 1, with more before it
    if n - k != 4 {
        proof {
            assert(name@.subrange(k as int, n as int).len() != json_extension().len());
        }
        return false;
    }
    let r = cs[k] == 'j' && cs[k + 1] == 's' && cs[k + 2] == 'o' && cs[k + 3] == 'n';
    proof {
        let ext = name@.subrange(k as int, n as int);
        if name@ == seq!['.', '.'] {
            assert(name@.len() == 2);
        }
        if r {
            assert(ext =~= json_extension());
        } else {
            assert(ext.len() == 4);
            assert(ext[0] == cs@[k as int]);
            assert(ext[1] == cs@[k + 1]);
            assert(ext[2] == cs@[k + 2]);
            assert(ext[3] == cs@[k + 3]);
            assert(ext != json_extension());
        }
    }
    r
}

/// Whether a directory holding files named `names` holds a sheet file.
pub fn has_json_files(names: &Vec<String>) -> (r: bool)
    ensures
        r == has_sheet_file(names.deep_view()),
{
    let mut i: usize = 0;
    while i < names.len()
        invariant
            i <= names@.len(),
            forall|j: int| 0 <= j < i ==> !is_sheet_file_name(#[trigger] names.deep_view()[j]),
        decreases names.len() - i,
    {
        if is_sheet_file(names[i].as_str()) {
            assert(is_sheet_file_name(names.deep_view()[i as int]));
            return true;
        }
        i = i + 1;
    }
    false
}

/// The file a sheet with id `id` is written to: the id followed by `.json`.
pub fn sheet_file_name(id: &str) -> (r: String)
    ensures
        r@ == sheet_file_name_of(id@),
{
    let r = String::from_str(id).concat(".json");
    proof {
        reveal_strlit(".json");
        assert(".json"@ =~= seq!['.'] + json_extension());
        assert(r@ =~= sheet_file_name_of(id@));
    }
    r
}

/// The files to write so that a directory holding files named `names` holds the
/// built-in sheets: nothing if it already holds a sheet file, else each built-in
/// sheet with the name of its file.
pub fn default_sheet_files(names: &Vec<String>) -> (r: Vec<(String, CheatSheet)>)
    ensures
        r@.len() == seeded_file_names(names.deep_view()).len(),
        forall|k: int| 0 <= k < r@.len() ==> (#[trigger] r@[k]).0@ == seeded_file_names(names.deep_view())[k],
        forall|k: int| 0 <= k < r@.len() ==> (#[trigger] r@[k]).1@ == default_sheets_model()[k],
{
    let mut r: Vec<(String, CheatSheet)> = Vec::new();
    if has_json_files(names) {
        return r;
    }
    let mut sheets = default_cheat_sheets();
    let ghost model = default_sheets_model();
    let n = sheets.len();
    let mut i: usize = 0;
    assert(model.len() == 4);
    while i < n
        invariant
            n == model.len(),
            model == default_sheets_model(),
            !has_sheet_file(names.deep_view()),
            i <= n,
            sheets@.len() == n - i,
            forall|k: int| 0 <= k < n - i ==> (#[trigger] sheets@[k])@ == model[k + i],
            r@.len() == i,
            forall|k: int| 0 <= k < i ==> (#[trigger] r@[k]).0@ == sheet_file_name_of(model[k].id),
            forall|k: int| 0 <= k < i ==> (#[trigger] r@[k]).1@ == model[k],
        decreases n - i,
    {
        let ghost before = sheets@;
        let sheet = sheets.remove(0);
        assert(sheet@ == model[i as int]);
        assert forall|k: int| 0 <= k < n - i - 1 implies (#[trigger] sheets@[k])@ == model[k + i + 1] by {
            assert(sheets@[k] == before[k + 1]);
        }
        let file = sheet_file_name(sheet.id.as_str());
        r.push((file, sheet));
        i = i + 1;
    }
    r
}

/// Ids made of the same text before a common suffix are equal.
proof fn lemma_suffix_cancel(a: Seq<char>, b: Seq<char>, s: Seq<char>)
    requires
        a + s == b + s,
    ensures
        a == b,
{
    assert((a + s).len() == a.len() + s.len());
    assert((b + s).len() == b.len() + s.len());
    assert(a.len() == b.len());
    assert forall|k: int| 0 <= k < a.len() implies a[k] == b[k] by {
        assert((a + s)[k] == a[k]);
        assert((b + s)[k] == b[k]);
    }
    assert(a =~= b);
}

/// The built-in sheets have distinct ids.
pub proof fn lemma_default_ids_distinct()
    ensures
        forall|i: int, j: int|
            0 <= i < j < default_sheets_model().len() ==> (#[trigger] default_sheets_model()[i]).id
                != (#[trigger] default_sheets_model()[j]).id,
{
    reveal_strlit("vscode");
    reveal_strlit("figma");
    reveal_strlit("terminal");
    reveal_strlit("tmux");
    let m = default_sheets_model();
    assert(m[0].id.len() == 6);
    assert(m[1].id.len() == 5);
    assert(m[2].id.len() == 8);
    assert(m[3].id.len() == 4);
}

/// Seeding writes each built-in sheet to a file of its own: the seeded names are
/// distinct, so no built-in sheet overwrites another.
pub proof fn lemma_seeded_names_distinct(names: Seq<Seq<char>>)
    ensures
        forall|i: int, j: int|
            0 <= i < j < seeded_file_names(names).len() ==> #[trigger] seeded_file_names(names)[i]
                != #[trigger] seeded_file_names(names)[j],
{
    lemma_default_ids_distinct();
    let s = seeded_file_names(names);
    let m = default_sheets_model();
    assert forall|i: int, j: int| 0 <= i < j < s.len() implies #[trigger] s[i] != #[trigger] s[j] by {
        if s[i] == s[j] {
            assert(s[i] == m[i].id + (seq!['.'] + json_extension()));
            assert(s[j] == m[j].id + (seq!['.'] + json_extension()));
            assert(s[i] =~= m[i].id + (seq!['.'] + json_extension()));
            assert(s[j] =~= m[j].id + (seq!['.'] + json_extension()));
            lemma_suffix_cancel(m[i].id, m[j].id, seq!['.'] + json_extension());
        }
    }
}

/// A sheet's file name ends in `.json` after a non-empty id, so it is a sheet file.
pub proof fn lemma_sheet_file_name_is_sheet_file(id: Seq<char>)
    requires
        id.len() > 0,
    ensures
        is_sheet_file_name(sheet_file_name_of(id)),
{
    let name = sheet_file_name_of(id);
    let k = id.len() as int;
    assert(name.len() == k + 5);
    assert(name[k] == '.');
    assert forall|j: int| k < j < name.len() implies name[j] != '.' by {
        assert(name[j] == json_extension()[j - k - 1]);
    }
    lemma_last_dot_at(name, k);
    assert(name.subrange(k + 1, name.len() as int) =~= json_extension());
    if name == seq!['.', '.'] {
        assert(name.len() == 2);
    }
}

/// Seeding is done once: a directory that seeding has written to holds a sheet file,
/// so seeding it again writes nothing.
pub proof fn lemma_seeding_is_idempotent(names: Seq<Seq<char>>)
    ensures
        seeded_file_names(names + seeded_file_names(names)).len() == 0,
{
    let s = seeded_file_names(names);
    let all = names + s;
    if has_sheet_file(names) {
        assert(all =~= names);
    } else {
        reveal_strlit("vscode");
        let m = default_sheets_model();
        assert(m[0].id.len() == 6);
        lemma_sheet_file_name_is_sheet_file(m[0].id);
        assert(all[names.len() as int] == s[0]);
        assert(is_sheet_file_name(all[names.len() as int]));
    }
}

/// What seeding writes is read back: when the directory held no sheet file, the
/// sheet files found after seeding are exactly the seeded ones, in the order written.
pub proof fn lemma_seeded_files_are_read(names: Seq<Seq<char>>)
    requires
        !has_sheet_file(names),
    ensures
        sheet_file_names(names + seeded_file_names(names)) == seeded_file_names(names),
{
    let s = seeded_file_names(names);
    let m = default_sheets_model();
    reveal_strlit("vscode");
    reveal_strlit("figma");
    reveal_strlit("terminal");
    reveal_strlit("tmux");
    assert(m[0].id.len() == 6);
    assert(m[1].id.len() == 5);
    assert(m[2].id.len() == 8);
    assert(m[3].id.len() == 4);
    assert forall|i: int| 0 <= i < s.len() implies is_sheet_file_name(#[trigger] s[i]) by {
        lemma_sheet_file_name_is_sheet_file(m[i].id);
    }
    let pred = |n: Seq<char>| is_sheet_file_name(n);
    assert(names.filter(pred) =~= Seq::<Seq<char>>::empty()) by {
        lemma_filter_none(names, pred);
    }
    assert(s.filter(pred) =~= s) by {
        lemma_filter_all(s, pred);
    }
    Seq::filter_distributes_over_add(names, s, pred);
    assert(Seq::<Seq<char>>::empty() + s =~= s);
}

/// Names that are not sheet files do not change which files are read: inserting one
/// anywhere among the names leaves the sheet files, and their order, as they were.
pub proof fn lemma_non_sheet_names_ignored(names: Seq<Seq<char>>, pos: int, other: Seq<char>)
    requires
        0 <= pos <= names.len(),
        !is_sheet_file_name(other),
    ensures
        sheet_file_names(names.insert(pos, other)) == sheet_file_names(names),
{
    let pred = |n: Seq<char>| is_sheet_file_name(n);
    let front = names.subrange(0, pos);
    let back = names.subrange(pos, names.len() as int);
    assert(names =~= front + back);
    assert(names.insert(pos, other) =~= front + (seq![other] + back));
    Seq::filter_distributes_over_add(front, back, pred);
    Seq::filter_distributes_over_add(seq![other], back, pred);
    Seq::filter_distributes_over_add(front, seq![other] + back, pred);
    assert(seq![other].filter(pred) =~= Seq::<Seq<char>>::empty()) by {
        lemma_filter_none(seq![other], pred);
    }
    assert(Seq::<Seq<char>>::empty() + back.filter(pred) =~= back.filter(pred));
}

/// A name is a sheet file exactly when it ends in `.json` after at least one character.
pub proof fn lemma_sheet_file_iff_json_suffix(name: Seq<char>)
    ensures
        is_sheet_file_name(name) <==> (name.len() > 5 && name.subrange(name.len() - 5, name.len() as int)
            == ".json"@),
{
    reveal_strlit(".json");
    let n = name.len() as int;
    lemma_last_dot(name);
    if n > 5 && name.subrange(n - 5, n) == ".json"@ {
        let k = n - 5;
        assert(name[k] == name.subrange(n - 5, n)[0]);
        assert forall|j: int| k < j < n implies name[j] != '.' by {
            assert(name[j] == name.subrange(n - 5, n)[j - k]);
        }
        lemma_last_dot_at(name, k);
        assert(name.subrange(k + 1, n) =~= json_extension()) by {
            assert forall|j: int| 0 <= j < 4 implies name.subrange(k + 1, n)[j] == json_extension()[j] by {
                assert(name[k + 1 + j] == name.subrange(n - 5, n)[j + 1]);
            }
        }
        if name == seq!['.', '.'] {
            assert(name.len() == 2);
        }
    }
    if is_sheet_file_name(name) {
        let k = last_dot(name)->0;
        assert(name.subrange(k + 1, n) == json_extension());
        assert(n - k - 1 == 4);
        assert(name.subrange(n - 5, n) =~= ".json"@) by {
            assert forall|j: int| 1 <= j < 5 implies name.subrange(n - 5, n)[j] == ".json"@[j] by {
                assert(name[k + j] == name.subrange(k + 1, n)[j - 1]);
            }
        }
    }
}

/// A sheet's file name is its id followed by `.json`.
pub proof fn lemma_sheet_file_name_shape(id: Seq<char>)
    ensures
        sheet_file_name_of(id).len() == id.len() + 5,
        sheet_file_name_of(id).subrange(0, id.len() as int) == id,
        sheet_file_name_of(id).subrange(id.len() as int, id.len() as int + 5) == ".json"@,
{
    reveal_strlit(".json");
    let name = sheet_file_name_of(id);
    assert(name.subrange(0, id.len() as int) =~= id);
    assert(name.subrange(id.len() as int, id.len() as int + 5) =~= ".json"@);
}

/// Filtering keeps nothing when no element passes.
proof fn lemma_filter_none(s: Seq<Seq<char>>, pred: spec_fn(Seq<char>) -> bool)
    requires
        forall|i: int| 0 <= i < s.len() ==> !pred(#[trigger] s[i]),
    ensures
        s.filter(pred) =~= Seq::<Seq<char>>::empty(),
    decreases s.len(),
{
    reveal(Seq::filter);
    if s.len() > 0 {
        lemma_filter_none(s.drop_last(), pred);
        assert(!pred(s[s.len() - 1]));
    }
}

/// Filtering keeps everything when every element passes.
proof fn lemma_filter_all(s: Seq<Seq<char>>, pred: spec_fn(Seq<char>) -> bool)
    requires
        forall|i: int| 0 <= i < s.len() ==> pred(#[trigger] s[i]),
    ensures
        s.filter(pred) =~= s,
    decreases s.len(),
{
    reveal(Seq::filter);
    if s.len() > 0 {
        lemma_filter_all(s.drop_last(), pred);
        assert(pred(s[s.len() - 1]));
        assert(s.drop_last().push(s.last()) =~= s);
    }
}

} // verus!
