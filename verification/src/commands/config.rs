//! The decisions of the `config` commands: which file, which entry name, how
//! the entries are listed, and the order in which models are offered.
use vstd::prelude::*;

use crate::config::settings::{
    opt_str_view, spec_entry_name, strings_view, AppConfig, AppConfigView, ApiConfigView,
};
use crate::dirs::{get_config_file_path, spec_push_path, spec_work_dir, DirsError};
use crate::text::{
    copy_str, is_blank, lemma_lex_lt_irreflexive, lemma_lex_lt_total, lemma_lex_lt_transitive,
    lex_lt, str_eq, str_lt,
    trim, trim_seq,
};

verus! {

/// The configuration file: the one given on the command line, else the
/// default one under `HOME`.
pub fn resolve_config_path(custom: Option<&str>, home: Option<&str>) -> (r: Result<String, DirsError>)
    ensures
        custom matches Some(c) ==> r matches Ok(p) && p@ == c@,
        custom is None ==> (home matches Some(h) ==> r matches Ok(p) && p@ == spec_push_path(
            spec_work_dir(h@),
            "config.toml"@,
        )),
        custom is None && home is None ==> r == Err::<String, DirsError>(DirsError::NoHome),
{
    match custom {
        Some(c) => Ok(copy_str(c)),
        None => get_config_file_path(home),
    }
}

/// The name that a `use` or `remove` command was given: trimmed, and absent
/// when blank.
pub open spec fn spec_requested_name(name: Option<Seq<char>>) -> Option<Seq<char>> {
    match name {
        Some(n) => if trim_seq(n).len() > 0 {
            Some(trim_seq(n))
        } else {
            None
        },
        None => None,
    }
}

/// The trimmed name given to a command, or `None` when none or a blank one was given.
pub fn requested_name(name: Option<&str>) -> (r: Option<String>)
    ensures
        match r {
            Some(s) => spec_requested_name(opt_str_view(name)) == Some(s@),
            None => spec_requested_name(opt_str_view(name)) is None,
        },
{
    match name {
        Some(n) => if is_blank(n) {
            None
        } else {
            Some(trim(n))
        },
        None => None,
    }
}

/// Whether `names` holds `name`.
fn contains_name(names: &Vec<String>, name: &str) -> (r: bool)
    ensures
        r == strings_view(names@).contains(name@),
{
    let mut i: usize = 0;
    while i < names.len()
        invariant
            i <= names.len(),
            forall|k: int| 0 <= k < i ==> names@[k]@ != name@,
        decreases names.len() - i,
    {
        if str_eq(names[i].as_str(), name) {
            assert(strings_view(names@)[i as int] == name@);
            return true;
        }
        i = i + 1;
    }
    assert(!strings_view(names@).contains(name@)) by {
        if strings_view(names@).contains(name@) {
            let k = choose|k: int| 0 <= k < names@.len() && strings_view(names@)[k] == name@;
            assert(names@[k]@ == name@);
        }
    }
    false
}

/// The name offered for a new entry of a built-in provider: the provider's
/// name, or that name with `-2` when an entry already carries it.
pub open spec fn spec_default_entry_name(existing: Seq<Seq<char>>, provider: Seq<char>) -> Seq<char> {
    if existing.contains(provider) {
        provider + "-2"@
    } else {
        provider
    }
}

/// The name offered for a new entry of `provider_name`, given the names of the
/// existing entries.
pub fn default_entry_name(existing: &Vec<String>, provider_name: &str) -> (r: String)
    ensures
        r@ == spec_default_entry_name(strings_view(existing@), provider_name@),
{
    let mut r = copy_str(provider_name);
    if contains_name(existing, provider_name) {
        r.append("-2");
    }
    r
}

/// Why a name cannot be given to a new entry.
#[derive(Debug)]
pub enum EntryNameError {
    /// The name is blank.
    Empty,
    /// An entry already carries the (trimmed) name.
    Duplicate(String),
}

impl EntryNameError {
    /// The text shown to the user.
    pub fn message(&self) -> (r: String)
        ensures
            match self {
                EntryNameError::Empty => r@ == "Name cannot be empty"@,
                EntryNameError::Duplicate(n) => r@ == "Provider '"@ + n@ + "' already exists"@,
            },
    {
        match self {
            EntryNameError::Empty => copy_str("Name cannot be empty"),
            EntryNameError::Duplicate(n) => {
                let mut r = copy_str("Provider '");
                r.append(n.as_str());
                r.append("' already exists");
                r
            },
        }
    }
}

/// Check the name typed for a new entry: it must not be blank, and no
/// existing entry may carry it once trimmed.
pub fn validate_entry_name(input: &str, existing: &Vec<String>) -> (r: Result<(), EntryNameError>)
    ensures
        trim_seq(input@).len() == 0 ==> r matches Err(EntryNameError::Empty),
        trim_seq(input@).len() > 0 && strings_view(existing@).contains(trim_seq(input@)) ==> (r matches Err(
            EntryNameError::Duplicate(n),
        ) && n@ == trim_seq(input@)),
        trim_seq(input@).len() > 0 && !strings_view(existing@).contains(trim_seq(input@)) ==> r is Ok,
{
    let trimmed = trim(input);
    if is_blank(input) {
        return Err(EntryNameError::Empty);
    }
    if contains_name(existing, trimmed.as_str()) {
        return Err(EntryNameError::Duplicate(trimmed));
    }
    Ok(())
}

/// One line of the provider listing.
#[derive(Debug)]
pub struct ProviderRow {
    /// The entry is the default one.
    pub is_default: bool,
    pub name: String,
    pub model: String,
    /// The built-in provider, or `custom`.
    pub kind: String,
}

/// The mathematical value of a [`ProviderRow`].
pub struct ProviderRowView {
    pub is_default: bool,
    pub name: Seq<char>,
    pub model: Seq<char>,
    pub kind: Seq<char>,
}

impl View for ProviderRow {
    type V = ProviderRowView;

    open spec fn view(&self) -> ProviderRowView {
        ProviderRowView {
            is_default: self.is_default,
            name: self.name@,
            model: self.model@,
            kind: self.kind@,
        }
    }
}

/// The listing line of an entry: marked when the default provider names it
/// exactly, with the entry's model and its built-in provider or `custom`.
pub open spec fn spec_provider_row(c: AppConfigView, e: ApiConfigView) -> ProviderRowView {
    ProviderRowView {
        is_default: c.default_provider == Some(spec_entry_name(e)),
        name: spec_entry_name(e),
        model: e.model,
        kind: match e.provider {
            Some(p) => p,
            None => "custom"@,
        },
    }
}

/// The listing lines of all entries, in order.
pub fn provider_rows(config: &AppConfig) -> (r: Vec<ProviderRow>)
    ensures
        r@.len() == config@.providers.len(),
        forall|k: int|
            0 <= k < r@.len() ==> #[trigger] r@[k]@ == spec_provider_row(config@, config@.providers[k]),
{
    let mut r: Vec<ProviderRow> = Vec::new();
    let mut i: usize = 0;
    while i < config.providers.len()
        invariant
            i <= config.providers.len(),
            r@.len() == i,
            forall|k: int|
                0 <= k < i ==> #[trigger] r@[k]@ == spec_provider_row(config@, config@.providers[k]),
        decreases config.providers.len() - i,
    {
        let entry = &config.providers[i];
        assert(config@.providers[i as int] == entry@);
        let name = entry.entry_name();
        let is_default = match &config.default_provider {
            Some(d) => str_eq(d.as_str(), name.as_str()),
            None => false,
        };
        let kind = match &entry.provider {
            Some(p) => copy_str(p.as_str()),
            None => copy_str("custom"),
        };
        r.push(ProviderRow { is_default, name, model: copy_str(entry.model.as_str()), kind });
        i = i + 1;
    }
    r
}

/// A provider added to a configuration without entries becomes the default
/// without asking; otherwise the user is asked.
pub fn add_makes_default_unasked(config: &AppConfig) -> (r: bool)
    ensures
        r == (config@.providers.len() == 0),
{
    config.providers.len() == 0
}

/// A list is sorted when no later text comes before an earlier one.
pub open spec fn sorted_by_lex(s: Seq<Seq<char>>) -> bool {
    forall|i: int, j: int| 0 <= i < j < s.len() ==> !lex_lt(#[trigger] s[j], #[trigger] s[i])
}

/// Inserting `m` at `p`, after every text that `m` does not come before and
/// before one that it does, keeps a sorted list sorted.
proof fn lemma_insert_sorted(s: Seq<Seq<char>>, m: Seq<char>, p: int)
    requires
        sorted_by_lex(s),
        0 <= p <= s.len(),
        forall|k: int| 0 <= k < p ==> !lex_lt(m, #[trigger] s[k]),
        p < s.len() ==> lex_lt(m, s[p]),
    ensures
        sorted_by_lex(s.insert(p, m)),
{
    let t = s.insert(p, m);
    assert forall|a: int, b: int| 0 <= a < b < t.len() implies !lex_lt(#[trigger] t[b], #[trigger] t[a]) by {
        if b < p {
            assert(t[a] == s[a] && t[b] == s[b]);
        } else if b == p {
            assert(t[a] == s[a] && t[b] == m);
        } else if a < p {
            assert(t[a] == s[a] && t[b] == s[b - 1]);
        } else if a == p {
            assert(t[a] == m && t[b] == s[b - 1]);
            if lex_lt(s[b - 1], m) {
                lemma_lex_lt_transitive(s[b - 1], m, s[p]);
                if b - 1 == p {
                    lemma_lex_lt_irreflexive(s[p]);
                }
            }
        } else {
            assert(t[a] == s[a - 1] && t[b] == s[b - 1]);
        }
    }
}

/// A sorted list comes in only one order: two sorted lists that hold the
/// same texts, as often each, are equal. So the order in which models are
/// offered is fixed by the models alone.
pub proof fn lemma_sorted_unique(a: Seq<Seq<char>>, b: Seq<Seq<char>>)
    requires
        sorted_by_lex(a),
        sorted_by_lex(b),
        a.to_multiset() == b.to_multiset(),
    ensures
        a == b,
    decreases a.len(),
{
    broadcast use vstd::seq_lib::group_to_multiset_ensures;

    vstd::seq_lib::to_multiset_len(a);
    vstd::seq_lib::to_multiset_len(b);
    if a.len() == 0 {
        assert(a =~= b);
    } else {
        vstd::seq_lib::to_multiset_contains(a, a[0]);
        vstd::seq_lib::to_multiset_contains(b, a[0]);
        vstd::seq_lib::to_multiset_contains(b, b[0]);
        vstd::seq_lib::to_multiset_contains(a, b[0]);
        assert(a.contains(a[0]));
        assert(b.contains(b[0]));
        let j = choose|j: int| 0 <= j < b.len() && b[j] == a[0];
        let i = choose|i: int| 0 <= i < a.len() && a[i] == b[0];
        assert(!lex_lt(a[0], b[0])) by {
            if j > 0 {
                assert(!lex_lt(b[j], b[0]));
            } else {
                lemma_lex_lt_irreflexive(b[0]);
            }
        }
        assert(!lex_lt(b[0], a[0])) by {
            if i > 0 {
                assert(!lex_lt(a[i], a[0]));
            } else {
                lemma_lex_lt_irreflexive(a[0]);
            }
        }
        if a[0] != b[0] {
            lemma_lex_lt_total(a[0], b[0]);
        }
        vstd::seq_lib::to_multiset_remove(a, 0);
        vstd::seq_lib::to_multiset_remove(b, 0);
        assert(a.remove(0) =~= a.drop_first());
        assert(b.remove(0) =~= b.drop_first());
        assert(sorted_by_lex(a.drop_first())) by {
            assert forall|x: int, y: int| 0 <= x < y < a.drop_first().len() implies !lex_lt(
                #[trigger] a.drop_first()[y],
                #[trigger] a.drop_first()[x],
            ) by {
                assert(a.drop_first()[y] == a[y + 1] && a.drop_first()[x] == a[x + 1]);
            }
        }
        assert(sorted_by_lex(b.drop_first())) by {
            assert forall|x: int, y: int| 0 <= x < y < b.drop_first().len() implies !lex_lt(
                #[trigger] b.drop_first()[y],
                #[trigger] b.drop_first()[x],
            ) by {
                assert(b.drop_first()[y] == b[y + 1] && b.drop_first()[x] == b[x + 1]);
            }
        }
        lemma_sorted_unique(a.drop_first(), b.drop_first());
        assert(a =~= seq![a[0]] + a.drop_first());
        assert(b =~= seq![b[0]] + b.drop_first());
    }
}

/// The models in the order they are offered: sorted, every model kept as
/// often as it was listed.
pub fn sorted_models(models: &Vec<String>) -> (r: Vec<String>)
    ensures
        strings_view(r@).to_multiset() == strings_view(models@).to_multiset(),
        sorted_by_lex(strings_view(r@)),
{
    broadcast use vstd::seq_lib::group_to_multiset_ensures;

    let mut out: Vec<String> = Vec::new();
    let mut i: usize = 0;
    assert(strings_view(models@).take(0) =~= Seq::<Seq<char>>::empty());
    assert(strings_view(out@) =~= Seq::<Seq<char>>::empty());
    while i < models.len()
        invariant
            i <= models.len(),
            sorted_by_lex(strings_view(out@)),
            strings_view(out@).to_multiset() == strings_view(models@).take(i as int).to_multiset(),
        decreases models.len() - i,
    {
        let m = copy_str(models[i].as_str());
        let mut p: usize = 0;
        let ghost ov = strings_view(out@);
        while p < out.len() && !str_lt(m.as_str(), out[p].as_str())
            invariant
                p <= out.len(),
                ov == strings_view(out@),
                forall|k: int| 0 <= k < p ==> !lex_lt(m@, #[trigger] ov[k]),
            decreases out.len() - p,
        {
            assert(ov[p as int] == out@[p as int]@);
            p = p + 1;
        }
        if p < out.len() {
            assert(ov[p as int] == out@[p as int]@);
        }
        proof {
            lemma_insert_sorted(ov, m@, p as int);
        }
        let ghost mv = m@;
        out.insert(p, m);
        assert(strings_view(out@) =~= ov.insert(p as int, mv));
        assert(mv == strings_view(models@)[i as int]);
        assert(strings_view(models@).take(i + 1) =~= strings_view(models@).take(i as int).push(
            mv,
        ));
        proof {
            vstd::seq_lib::to_multiset_insert(ov, p as int, mv);
            vstd::seq_lib::to_multiset_build(strings_view(models@).take(i as int), mv);
        }
        i = i + 1;
    }
    assert(strings_view(models@).take(models.len() as int) =~= strings_view(models@));
    out
}

} // verus!
