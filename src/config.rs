use vstd::prelude::*;

verus! {

/// The bot's settings.
pub struct AppConfig {
    /// The token the bot logs in with.
    pub discord_token: String,
    /// Where the samurai table is read from.
    pub samurai_csv_path: String,
}

/// A place for the settings that is filled once, at start-up, and read from
/// then on.
pub struct ConfigCell {
    value: Option<AppConfig>,
}

/// Why the settings could not be stored.
pub enum ConfigError {
    /// The cell already holds settings.
    AlreadyInitialized,
}

impl ConfigCell {
    /// What the cell holds.
    pub closed spec fn contents(&self) -> Option<AppConfig> {
        self.value
    }

    /// An empty cell.
    pub fn new() -> (r: ConfigCell)
        ensures
            r.contents() is None,
    {
        ConfigCell { value: None }
    }
}

/// Stores the settings loaded at start-up and hands them back; a cell that
/// already holds settings keeps them and refuses the new ones.
pub fn init_app_config(cell: &mut ConfigCell, loaded: AppConfig) -> (r: Result<&AppConfig, ConfigError>)
    ensures
        old(cell).contents() is None ==> final(cell).contents() == Some(loaded)
            && (r matches Ok(c) && *c == loaded),
        old(cell).contents() is Some ==> final(cell).contents() == old(cell).contents()
            && r matches Err(ConfigError::AlreadyInitialized),
{
    if cell.value.is_some() {
        return Err(ConfigError::AlreadyInitialized);
    }
    cell.value = Some(loaded);
    Ok(cell.value.as_ref().unwrap())
}

/// The settings stored at start-up, if any were.
pub fn app_config(cell: &ConfigCell) -> (r: Option<&AppConfig>)
    ensures
        match cell.contents() {
            Some(c) => r matches Some(v) && *v == c,
            None => r is None,
        },
{
    cell.value.as_ref()
}

/// A configuration document as key normalisation sees it: tables and arrays
/// are opened, every other value is carried through as it is.
pub enum ConfigTree<L> {
    Table(Vec<(String, ConfigTree<L>)>),
    Array(Vec<ConfigTree<L>>),
    Leaf(L),
}

/// The lowercase form of a text under Unicode case mapping.
pub uninterp spec fn lower_of(s: Seq<char>) -> Seq<char>;

/// Relies on `str::to_lowercase`: the result depends on the characters alone.
#[verifier::external_body]
fn lowercase(s: &str) -> (r: String)
    ensures
        r@ == lower_of(s@),
{
    s.to_lowercase()
}

/// The lowercased key of the `k`-th entry of a table.
pub open spec fn lowered_key<L>(entries: Seq<(String, ConfigTree<L>)>, k: int) -> Seq<char> {
    lower_of(entries[k].0@)
}

/// Some entry of `outs` is keyed by the lowercased key of entry `k`.
pub open spec fn key_kept<L>(entries: Seq<(String, ConfigTree<L>)>, outs: Seq<(String, ConfigTree<L>)>, k: int) -> bool {
    exists|i: int| 0 <= i < outs.len() && outs[i].0@ == lowered_key(entries, k)
}

/// The position of the last entry whose key lowercases to `key`, or -1
/// where there is none.
pub open spec fn last_key_index<L>(entries: Seq<(String, ConfigTree<L>)>, key: Seq<char>) -> int
    decreases entries.len(),
{
    if entries.len() == 0 {
        -1
    } else if lowered_key(entries, entries.len() - 1) == key {
        entries.len() - 1
    } else {
        last_key_index(entries.drop_last(), key)
    }
}

/// `out` is `src` with every table key lowercased, at every depth. Where two
/// keys of a table lowercase alike, one entry stays, with the value of the
/// later one.
pub open spec fn normalizes<L>(src: ConfigTree<L>, out: ConfigTree<L>) -> bool
    decreases src,
{
    match src {
        ConfigTree::Leaf(v) => out == ConfigTree::Leaf(v),
        ConfigTree::Array(items) => match out {
            ConfigTree::Array(outs) => outs@.len() == items@.len()
                && forall|i: int| 0 <= i < items@.len() ==> normalizes(#[trigger] items@[i], outs@[i]),
            _ => false,
        },
        ConfigTree::Table(entries) => match out {
            ConfigTree::Table(outs) => {
                &&& forall|i: int, j: int| 0 <= i < j < outs@.len() ==> outs@[i].0@ != outs@[j].0@
                &&& forall|k: int| 0 <= k < entries@.len() ==> #[trigger] key_kept(entries@, outs@, k)
                &&& forall|i: int| 0 <= i < outs@.len() ==> {
                    let k = last_key_index(entries@, (#[trigger] outs@[i]).0@);
                    0 <= k < entries@.len() && normalizes(entries@[k].1, outs@[i].1)
                }
            },
            _ => false,
        },
    }
}

/// The position of the entry keyed `key`, if any.
fn key_position<L>(outs: &Vec<(String, ConfigTree<L>)>, key: &String) -> (r: Option<usize>)
    ensures
        match r {
            Some(p) => p < outs@.len() && outs@[p as int].0@ == key@,
            None => forall|j: int| 0 <= j < outs@.len() ==> outs@[j].0@ != key@,
        },
{
    let mut j: usize = 0;
    while j < outs.len()
        invariant
            j <= outs@.len(),
            forall|m: int| 0 <= m < j ==> outs@[m].0@ != key@,
        decreases outs@.len() - j,
    {
        if outs[j].0 == *key {
            return Some(j);
        }
        j = j + 1;
    }
    None
}

/// Lowercases every table key of a configuration document, at every depth.
/// Where two keys of one table lowercase alike, the later entry's value is
/// kept.
#[verifier::loop_isolation(false)]
pub fn normalize_keys<L>(tree: ConfigTree<L>) -> (r: ConfigTree<L>)
    ensures
        normalizes(tree, r),
    decreases tree,
{
    let ghost src = tree;
    match tree {
        ConfigTree::Leaf(v) => ConfigTree::Leaf(v),
        ConfigTree::Array(items) => {
            let ghost items_seq = items@;
            assert forall|i: int| 0 <= i < items_seq.len() implies decreases_to!(src => #[trigger] items_seq[i]) by {
                assert(decreases_to!(items => items@));
            }
            let mut outs: Vec<ConfigTree<L>> = Vec::new();
            for item in it: items
                invariant
                    it.seq() == items_seq,
                    forall|i: int| 0 <= i < items_seq.len() ==> decreases_to!(src => #[trigger] items_seq[i]),
                    outs@.len() == it.index(),
                    forall|i: int| 0 <= i < it.index() ==> normalizes(#[trigger] items_seq[i], outs@[i]),
            {
                assert(item == items_seq[it.index() as int]);
                let out = normalize_keys(item);
                outs.push(out);
            }
            assert(normalizes(src, ConfigTree::Array(outs)));
            ConfigTree::Array(outs)
        },
        ConfigTree::Table(entries) => {
            let mut outs: Vec<(String, ConfigTree<L>)> = Vec::new();
            let ghost mut src_of: Seq<int> = Seq::empty();
            let ghost mut dst_of: Seq<int> = Seq::empty();
            assert forall|k: int| 0 <= k < entries@.len() implies decreases_to!(src => (#[trigger] entries@[k]).1) by {
                assert(decreases_to!(entries => entries@));
                assert(decreases_to!(entries@[k] => entries@[k].1));
            }
            for entry in it: entries
                invariant
                    it.seq() == entries@,
                    forall|k: int| 0 <= k < entries@.len() ==> decreases_to!(src => (#[trigger] entries@[k]).1),
                    src_of.len() == outs@.len(),
                    dst_of.len() == it.index(),
                    forall|i: int, j: int| 0 <= i < j < outs@.len() ==> outs@[i].0@ != outs@[j].0@,
                    forall|k: int| 0 <= k < it.index() ==> 0 <= #[trigger] dst_of[k] < outs@.len()
                        && outs@[dst_of[k]].0@ == lowered_key(entries@, k),
                    forall|i: int| 0 <= i < outs@.len() ==> {
                        let k = #[trigger] src_of[i];
                        &&& 0 <= k < it.index()
                        &&& k == last_key_index(entries@.subrange(0, it.index() as int), outs@[i].0@)
                        &&& normalizes(entries@[k].1, outs@[i].1)
                    },
            {
                let ghost n = dst_of.len();
                let ghost before = entries@.subrange(0, n as int);
                let ghost after = entries@.subrange(0, n as int + 1);
                assert(entry == entries@[n as int]);
                assert(after.drop_last() == before);
                assert(lowered_key(after, n as int) == lowered_key(entries@, n as int));
                let (key, value) = entry;
                let lowered = lowercase(key.as_str());
                let out = normalize_keys(value);
                let ghost old_outs = outs@;
                match key_position(&outs, &lowered) {
                    Some(p) => {
                        outs.set(p, (lowered, out));
                        proof {
                            assert forall|i: int| 0 <= i < outs@.len() && i != p implies
                                last_key_index(after, outs@[i].0@) == last_key_index(before, outs@[i].0@) by {
                                assert(old_outs[i].0@ != old_outs[p as int].0@);
                            }
                            src_of = src_of.update(p as int, n as int);
                            dst_of = dst_of.push(p as int);
                        }
                    },
                    None => {
                        outs.push((lowered, out));
                        proof {
                            assert forall|i: int| 0 <= i < old_outs.len() implies
                                last_key_index(after, outs@[i].0@) == last_key_index(before, outs@[i].0@) by {
                                assert(outs@[i] == old_outs[i]);
                            }
                            src_of = src_of.push(n as int);
                            dst_of = dst_of.push((outs@.len() - 1) as int);
                        }
                    },
                }
            }
            proof {
                assert(entries@.subrange(0, entries@.len() as int) == entries@);
                assert forall|k: int| 0 <= k < entries@.len() implies #[trigger] key_kept(entries@, outs@, k) by {
                    assert(outs@[dst_of[k]].0@ == lowered_key(entries@, k));
                }
                assert forall|i: int| 0 <= i < outs@.len() implies {
                    let k = last_key_index(entries@, (#[trigger] outs@[i]).0@);
                    0 <= k < entries@.len() && normalizes(entries@[k].1, outs@[i].1)
                } by {
                    assert(src_of[i] == last_key_index(entries@, outs@[i].0@));
                }
            }
            ConfigTree::Table(outs)
        },
    }
}

} // verus!
