use vstd::prelude::*;
use vstd::string::StrSliceExecFns;

verus! {

/// The extension that marks a plugin library, compared without regard to
/// ASCII case.
pub open spec fn plugin_extension() -> Seq<char> {
    seq!['d', 'l', 'l']
}

/// Position of the last `'.'` in `s`, if `s` has one.
pub open spec fn last_dot(s: Seq<char>) -> Option<int>
    decreases s.len(),
{
    if s.len() == 0 {
        None
    } else if s.last() == '.' {
        Some(s.len() - 1)
    } else {
        last_dot(s.drop_last())
    }
}

/// Extension of a file name: the text after its last `'.'`. A name without a
/// `'.'`, a name whose only `'.'` is its first character, and the name `..`
/// have none.
pub open spec fn spec_extension(name: Seq<char>) -> Option<Seq<char>> {
    if name == seq!['.', '.'] {
        None
    } else {
        match last_dot(name) {
            None => None,
            Some(i) => if i == 0 {
                None
            } else {
                Some(name.subrange(i + 1, name.len() as int))
            },
        }
    }
}

/// Code point of the ASCII lower-case form of a character; other characters
/// keep their code point.
pub open spec fn ascii_lower(c: char) -> int {
    if 'A' <= c <= 'Z' {
        (c as int) + 32
    } else {
        c as int
    }
}

/// `a` and `b` are equal once ASCII letters are folded to lower case.
pub open spec fn eq_ignore_ascii_case(a: Seq<char>, b: Seq<char>) -> bool {
    &&& a.len() == b.len()
    &&& forall|i: int| 0 <= i < a.len() ==> ascii_lower(#[trigger] a[i]) == ascii_lower(b[i])
}

/// A directory entry of this name is a plugin to load.
pub open spec fn is_plugin_name(name: Seq<char>) -> bool {
    spec_extension(name) matches Some(ext) && eq_ignore_ascii_case(ext, plugin_extension())
}

/// What the plugins folder turned out to be.
#[derive(Debug)]
pub enum PluginDir {
    /// There is no folder of that name.
    Missing,
    /// The folder exists but could not be listed; the text says why.
    Unreadable(String),
    /// The names of the folder's entries, in the order they were listed.
    Listed(Vec<String>),
}

/// The plugins folder exists but could not be listed; the text says why.
#[derive(Debug)]
pub struct PluginDirUnreadable(pub String);

/// `idx` lists, in increasing order, exactly the positions of `names` that hold
/// plugin names.
pub open spec fn selects_plugins(names: Seq<Seq<char>>, idx: Seq<usize>) -> bool {
    &&& forall|k: int| 0 <= k < idx.len() ==> #[trigger] idx[k] < names.len()
    &&& forall|k: int| 0 <= k < idx.len() ==> is_plugin_name(names[#[trigger] idx[k] as int])
    &&& forall|k: int, l: int| 0 <= k < l < idx.len() ==> #[trigger] idx[k] < #[trigger] idx[l]
    &&& forall|i: int|
        0 <= i < names.len() && is_plugin_name(#[trigger] names[i]) ==> idx.contains(i as usize)
}

/// Whether `c` is `lower` or its ASCII upper-case form `upper`.
fn eq_ignore_case_char(c: char, lower: char, upper: char) -> (b: bool)
    requires
        'a' <= lower <= 'z',
        upper as u32 == lower as u32 - 32,
    ensures
        b == (ascii_lower(c) == ascii_lower(lower)),
{
    c == lower || c == upper
}

/// Whether a directory entry of this name is a plugin: its extension is `dll`
/// in any ASCII case.
pub fn is_plugin_file(name: &str) -> (b: bool)
    ensures
        b == is_plugin_name(name@),
{
    let n = name.unicode_len();
    if n == 2 && name.get_char(0) == '.' && name.get_char(1) == '.' {
        assert(name@ =~= seq!['.', '.']);
        return false;
    }
    assert(name@ != seq!['.', '.']);
    // Walk back from the end to just past the last '.'.
    let mut i: usize = n;
    assert(name@.subrange(0, n as int) =~= name@);
    while i > 0
        invariant_except_break
            i <= n == name@.len(),
            last_dot(name@) == last_dot(name@.subrange(0, i as int)),
        ensures
            i <= n == name@.len(),
            i == 0 ==> last_dot(name@) is None,
            i > 0 ==> last_dot(name@) == Some(i - 1),
        decreases i,
    {
        if name.get_char(i - 1) == '.' {
            assert(name@.subrange(0, i as int).last() == '.');
            break;
        }
        assert(name@.subrange(0, i as int).drop_last() =~= name@.subrange(0, i - 1));
        i = i - 1;
    }
    if i <= 1 || n - i != 3 {
        return false;
    }
    let ext = Ghost(name@.subrange(i as int, n as int));
    assert(ext@[0] == name@[i as int] && ext@[1] == name@[i + 1] && ext@[2] == name@[i + 2]);
    let b = eq_ignore_case_char(name.get_char(i), 'd', 'D') && eq_ignore_case_char(
        name.get_char(i + 1),
        'l',
        'L',
    ) && eq_ignore_case_char(name.get_char(i + 2), 'l', 'L');
    assert(plugin_extension() =~= seq!['d', 'l', 'l']);
    if b {
        assert forall|k: int| 0 <= k < ext@.len() implies ascii_lower(#[trigger] ext@[k])
            == ascii_lower(plugin_extension()[k]) by {
            if k == 0 {
            } else if k == 1 {
            } else {
            }
        }
    } else {
        assert(!eq_ignore_ascii_case(ext@, plugin_extension())) by {
            if eq_ignore_ascii_case(ext@, plugin_extension()) {
                assert(ascii_lower(ext@[0]) == ascii_lower(plugin_extension()[0]));
                assert(ascii_lower(ext@[1]) == ascii_lower(plugin_extension()[1]));
                assert(ascii_lower(ext@[2]) == ascii_lower(plugin_extension()[2]));
            }
        }
    }
    b
}

/// The views of a listing's names.
pub open spec fn names_view(names: Seq<String>) -> Seq<Seq<char>> {
    names.map_values(|s: String| s@)
}

/// Positions, in listing order, of the names that are plugin names.
pub open spec fn plugin_indices(names: Seq<Seq<char>>) -> Seq<usize>
    decreases names.len(),
{
    if names.len() == 0 {
        seq![]
    } else {
        let rest = plugin_indices(names.drop_last());
        if is_plugin_name(names.last()) {
            rest.push((names.len() - 1) as usize)
        } else {
            rest
        }
    }
}

/// Positions, in listing order, of the entries that are plugins.
pub fn select_plugins(names: &Vec<String>) -> (idx: Vec<usize>)
    ensures
        idx@ == plugin_indices(names_view(names@)),
{
    let ghost view = names_view(names@);
    let mut idx: Vec<usize> = Vec::new();
    let mut i: usize = 0;
    assert(view.take(0) =~= Seq::<Seq<char>>::empty());
    while i < names.len()
        invariant
            i <= names.len(),
            view == names_view(names@),
            view.len() == names.len(),
            idx@ == plugin_indices(view.take(i as int)),
        decreases names.len() - i,
    {
        assert(view[i as int] == names@[i as int]@);
        assert(view.take(i + 1).drop_last() =~= view.take(i as int));
        assert(view.take(i + 1).last() == view[i as int]);
        if is_plugin_file(names[i].as_str()) {
            idx.push(i);
        }
        i = i + 1;
    }
    assert(view.take(names.len() as int) =~= view);
    idx
}

/// The selected positions are in range, in increasing order, and are exactly
/// the positions of plugin names.
pub proof fn lemma_plugin_indices_select(names: Seq<Seq<char>>)
    requires
        names.len() <= usize::MAX,
    ensures
        selects_plugins(names, plugin_indices(names)),
    decreases names.len(),
{
    if names.len() > 0 {
        let prev = names.drop_last();
        lemma_plugin_indices_select(prev);
        let rest = plugin_indices(prev);
        let idx = plugin_indices(names);
        assert forall|k: int| 0 <= k < rest.len() implies names[#[trigger] rest[k] as int]
            == prev[rest[k] as int] by {}
        assert forall|i: int| 0 <= i < names.len() && is_plugin_name(#[trigger] names[i]) implies idx.contains(
            i as usize,
        ) by {
            if i < names.len() - 1 {
                assert(prev[i] == names[i]);
                let w = choose|w: int| 0 <= w < rest.len() && rest[w] == i as usize;
                assert(idx[w] == i as usize);
            } else {
                assert(idx[idx.len() - 1] == i as usize);
            }
        }
        if is_plugin_name(names.last()) {
            assert(idx == rest.push((names.len() - 1) as usize));
        }
    }
}

/// Decides which entries of the plugins folder to load: none when the folder
/// is missing, an error when it cannot be listed, and otherwise the plugins
/// among the listed entries, in listing order.
pub fn plugin_loader(dir: &PluginDir) -> (r: Result<Vec<usize>, PluginDirUnreadable>)
    ensures
        match dir {
            PluginDir::Missing => r matches Ok(idx) && idx@.len() == 0,
            PluginDir::Unreadable(why) => r matches Err(e) && e.0@ == why@,
            PluginDir::Listed(names) => r matches Ok(idx) && idx@ == plugin_indices(
                names_view(names@),
            ),
        },
{
    match dir {
        PluginDir::Missing => Ok(Vec::new()),
        PluginDir::Unreadable(why) => Err(PluginDirUnreadable(why.clone())),
        PluginDir::Listed(names) => Ok(select_plugins(names)),
    }
}

proof fn lemma_last_dot_found(s: Seq<char>)
    ensures
        last_dot(s) matches Some(i) ==> {
            &&& 0 <= i < s.len()
            &&& s[i] == '.'
            &&& forall|j: int| i < j < s.len() ==> s[j] != '.'
        },
        last_dot(s) is None ==> forall|j: int| 0 <= j < s.len() ==> s[j] != '.',
    decreases s.len(),
{
    if s.len() > 0 && s.last() != '.' {
        let t = s.drop_last();
        lemma_last_dot_found(t);
        assert(last_dot(s) == last_dot(t));
        if let Some(i) = last_dot(t) {
            assert forall|j: int| i < j < s.len() implies s[j] != '.' by {
                if j < t.len() {
                    assert(t[j] == s[j]);
                }
            }
        } else {
            assert forall|j: int| 0 <= j < s.len() implies s[j] != '.' by {
                if j < t.len() {
                    assert(t[j] == s[j]);
                }
            }
        }
    }
}

proof fn lemma_last_dot_at(s: Seq<char>, i: int)
    requires
        0 <= i < s.len(),
        s[i] == '.',
        forall|j: int| i < j < s.len() ==> s[j] != '.',
    ensures
        last_dot(s) == Some(i),
    decreases s.len(),
{
    if s.last() != '.' {
        lemma_last_dot_at(s.drop_last(), i);
    }
}

/// The plugins are exactly the entries named `<stem>.<ext>` with a non-empty
/// stem and `ext` equal to `dll` in any ASCII case.
pub proof fn lemma_plugin_name_shape(name: Seq<char>)
    ensures
        is_plugin_name(name) <==> exists|stem: Seq<char>, ext: Seq<char>|
            {
                &&& stem.len() > 0
                &&& eq_ignore_ascii_case(ext, plugin_extension())
                &&& name == stem + seq!['.'] + ext
            },
{
    lemma_last_dot_found(name);
    if is_plugin_name(name) {
        let i = last_dot(name)->0;
        let stem = name.subrange(0, i);
        let ext = name.subrange(i + 1, name.len() as int);
        assert(name =~= stem + seq!['.'] + ext);
    }
    if exists|stem: Seq<char>, ext: Seq<char>|
        {
            &&& stem.len() > 0
            &&& eq_ignore_ascii_case(ext, plugin_extension())
            &&& name == stem + seq!['.'] + ext
        } {
        let (stem, ext) = choose|stem: Seq<char>, ext: Seq<char>|
            {
                &&& stem.len() > 0
                &&& eq_ignore_ascii_case(ext, plugin_extension())
                &&& name == stem + seq!['.'] + ext
            };
        let i = stem.len() as int;
        assert(name[i] == '.');
        assert forall|j: int| i < j < name.len() implies name[j] != '.' by {
            assert(name[j] == ext[j - i - 1]);
            assert(ascii_lower(ext[j - i - 1]) == ascii_lower(plugin_extension()[j - i - 1]));
        }
        lemma_last_dot_at(name, i);
        assert(name.len() == stem.len() + 4);
        assert(name.subrange(i + 1, name.len() as int) =~= ext);
    }
}

} // verus!
