//! The user's preferences and how they are kept.
//!
//! The preferences live in one file. Reading it also repairs it: where the
//! file is missing or cannot be understood, the defaults are returned and
//! written back. A second, local store may hold preferences too; what it
//! holds wins over the file, and it is never written from here.
//!
//! Touching the file is the caller's part: it says what it found there and
//! carries out what is decided here.

use vstd::prelude::*;
use vstd::string::*;

verus! {

/// The user's preferences.
#[derive(Debug, Clone, Copy, PartialEq, Eq, Structural)]
pub struct KondoConfig {
    /// Whether windows get the glass effect.
    pub enable_glass: bool,
}

impl Default for KondoConfig {
    /// The preferences of a user who never chose: the glass effect is on.
    fn default() -> (config: Self)
        ensures
            config == defaults(),
    {
        Self { enable_glass: true }
    }
}

/// The preferences of a user who never chose.
pub open spec fn defaults() -> KondoConfig {
    KondoConfig { enable_glass: true }
}

/// What the preference file holds.
#[derive(Debug, Clone, Copy, PartialEq, Eq, Structural)]
pub enum StoredConfig {
    /// There is no file.
    Missing,
    /// There is a file, and no preferences can be read from it.
    Malformed,
    /// The file holds these preferences.
    Valid(KondoConfig),
}

/// What is to be done to the preference file.
#[derive(Debug, Clone, Copy, PartialEq, Eq, Structural)]
pub enum StoreAction {
    /// Nothing.
    Keep,
    /// Write these preferences, creating the file where it is missing.
    Write(KondoConfig),
}

/// What a read gives: the preferences in force, and what is to be done to
/// the file.
#[derive(Debug, Clone, Copy, PartialEq, Eq, Structural)]
pub struct ReadOutcome {
    pub config: KondoConfig,
    pub action: StoreAction,
}

/// The preferences that the file stands for: its own where it holds any,
/// the defaults otherwise.
pub open spec fn file_config(stored: StoredConfig) -> KondoConfig {
    match stored {
        StoredConfig::Valid(config) => config,
        _ => defaults(),
    }
}

/// The preferences in force: those of the local store where it holds any,
/// those that the file stands for otherwise.
pub open spec fn merged(stored: StoredConfig, local: Option<KondoConfig>) -> KondoConfig {
    match local {
        Some(config) => config,
        None => file_config(stored),
    }
}

/// What a read does to the file: a file that holds preferences is kept, any
/// other is replaced by the defaults.
pub open spec fn repair(stored: StoredConfig) -> StoreAction {
    match stored {
        StoredConfig::Valid(_) => StoreAction::Keep,
        _ => StoreAction::Write(defaults()),
    }
}

/// What a read gives.
pub open spec fn read_outcome(stored: StoredConfig, local: Option<KondoConfig>) -> ReadOutcome {
    ReadOutcome { config: merged(stored, local), action: repair(stored) }
}

/// What the file holds once `action` was carried out on a file that held
/// `stored`.
pub open spec fn stored_after(stored: StoredConfig, action: StoreAction) -> StoredConfig {
    match action {
        StoreAction::Keep => stored,
        StoreAction::Write(config) => StoredConfig::Valid(config),
    }
}

/// What a list of window labels holds.
pub open spec fn label_views(labels: Seq<String>) -> Seq<Seq<char>> {
    labels.map_values(|l: String| l@)
}

/// The windows that get the glass effect when `config` comes into force,
/// out of those that are open: all of them where the effect is on, none
/// where it is off.
pub open spec fn glass_targets(config: KondoConfig, open: Seq<Seq<char>>) -> Seq<Seq<char>> {
    if config.enable_glass {
        open
    } else {
        Seq::empty()
    }
}

impl KondoConfig {
    /// The defaults, to be written to the preference file.
    pub fn set_default() -> (outcome: ReadOutcome)
        ensures
            outcome == (ReadOutcome { config: defaults(), action: StoreAction::Write(defaults()) }),
    {
        let config = KondoConfig::default();
        ReadOutcome { config, action: config.set() }
    }

    /// Reads the preferences. `stored` is what the preference file holds
    /// and `local` what the local store holds, if anything.
    ///
    /// A missing file is created with the defaults and a file that cannot be
    /// understood is replaced by them; neither is an error. The local
    /// store's preferences win over the file's.
    pub fn get(stored: StoredConfig, local: Option<KondoConfig>) -> (outcome: ReadOutcome)
        ensures
            outcome == read_outcome(stored, local),
    {
        let from_file = match stored {
            StoredConfig::Valid(config) => ReadOutcome { config, action: StoreAction::Keep },
            _ => KondoConfig::set_default(),
        };
        match local {
            Some(config) => ReadOutcome { config, action: from_file.action },
            None => from_file,
        }
    }

    /// Keeps these preferences: they are to be written to the preference
    /// file, whole.
    pub fn set(&self) -> (action: StoreAction)
        ensures
            action == StoreAction::Write(*self),
    {
        StoreAction::Write(*self)
    }

    /// The windows that get the glass effect now that these preferences are
    /// in force. `open` holds the labels of the windows that are open at
    /// this moment. Where the effect is switched off no window is touched:
    /// one that has the effect keeps it.
    pub fn do_update(&self, open: &Vec<String>) -> (targets: Vec<String>)
        ensures
            label_views(targets@) == glass_targets(*self, label_views(open@)),
    {
        let mut targets: Vec<String> = Vec::new();
        if self.enable_glass {
            let n: usize = open.len();
            let mut i: usize = 0;
            while i < n
                invariant
                    i <= n,
                    n == open@.len(),
                    label_views(targets@) == label_views(open@).take(i as int),
                decreases n - i,
            {
                let ghost before = label_views(targets@);
                targets.push(open[i].clone());
                proof {
                    assert(label_views(targets@) =~= before.push(open@[i as int]@));
                    assert(label_views(open@).take(i + 1) =~= label_views(open@).take(
                        i as int,
                    ).push(open@[i as int]@));
                }
                i = i + 1;
            }
            assert(label_views(open@).take(n as int) =~= label_views(open@));
        } else {
            assert(label_views(targets@) =~= Seq::<Seq<char>>::empty());
        }
        targets
    }
}

/// The labels of the windows on which the glass effect failed, in the order
/// in which the windows were tried. `tried` holds each window's label and
/// whether the effect was applied.
pub open spec fn failed_labels(tried: Seq<(Seq<char>, bool)>) -> Seq<Seq<char>>
    decreases tried.len(),
{
    if tried.len() == 0 {
        Seq::empty()
    } else if tried.last().1 {
        failed_labels(tried.drop_last())
    } else {
        failed_labels(tried.drop_last()).push(tried.last().0)
    }
}

/// What a list of tried windows holds.
pub open spec fn tried_views(tried: Seq<(String, bool)>) -> Seq<(Seq<char>, bool)> {
    tried.map_values(|t: (String, bool)| t@)
}

/// Sums up a pass over the windows. `tried` holds each window's label and
/// whether the effect was applied to it. The pass is good where the effect
/// failed on no window; otherwise the windows on which it failed are named,
/// all of them: a failure on one window does not end the pass.
pub fn update_result(tried: &Vec<(String, bool)>) -> (result: Result<(), Vec<String>>)
    ensures
        failed_labels(tried_views(tried@)).len() == 0 <==> result is Ok,
        result matches Err(failed) ==> label_views(failed@) == failed_labels(tried_views(tried@)),
{
    let ghost all = tried_views(tried@);
    let mut failed: Vec<String> = Vec::new();
    let n: usize = tried.len();
    let mut i: usize = 0;
    while i < n
        invariant
            i <= n,
            n == tried@.len(),
            all == tried_views(tried@),
            label_views(failed@) == failed_labels(all.take(i as int)),
        decreases n - i,
    {
        proof {
            assert(all.take(i + 1).drop_last() =~= all.take(i as int));
            assert(all.take(i + 1).last() == tried@[i as int]@);
        }
        if !tried[i].1 {
            let ghost before = label_views(failed@);
            failed.push(tried[i].0.clone());
            assert(label_views(failed@) =~= before.push(tried@[i as int].0@));
        }
        i = i + 1;
    }
    assert(all.take(n as int) =~= all);
    if failed.len() == 0 {
        Ok(())
    } else {
        Err(failed)
    }
}

/// Reading a file that is missing or cannot be understood gives the
/// defaults, where the local store holds nothing, and leaves a file that
/// holds the defaults.
pub proof fn lemma_read_repairs(stored: StoredConfig)
    requires
        !(stored is Valid),
    ensures
        read_outcome(stored, None).config == defaults(),
        stored_after(stored, read_outcome(stored, None).action) == StoredConfig::Valid(defaults()),
{
}

/// Whatever the local store holds, a read leaves a file that holds
/// preferences: its own where it held any, the defaults otherwise.
pub proof fn lemma_read_leaves_valid_file(stored: StoredConfig, local: Option<KondoConfig>)
    ensures
        stored_after(stored, read_outcome(stored, local).action) == StoredConfig::Valid(
            file_config(stored),
        ),
{
}

/// A second read gives what the first gave and leaves the file alone.
pub proof fn lemma_read_twice(stored: StoredConfig, local: Option<KondoConfig>)
    ensures
        read_outcome(
            stored_after(stored, read_outcome(stored, local).action),
            local,
        ) == (ReadOutcome { config: read_outcome(stored, local).config, action: StoreAction::Keep }),
{
}

/// What was set is what the next read finds in the file, and that read
/// leaves the file alone. It is also what the read gives, unless the local
/// store holds preferences of its own, which win.
pub proof fn lemma_set_then_get(
    stored: StoredConfig,
    config: KondoConfig,
    local: Option<KondoConfig>,
)
    ensures
        read_outcome(stored_after(stored, StoreAction::Write(config)), None) == (ReadOutcome {
            config,
            action: StoreAction::Keep,
        }),
        read_outcome(stored_after(stored, StoreAction::Write(config)), local) == (ReadOutcome {
            config: match local {
                Some(held) => held,
                None => config,
            },
            action: StoreAction::Keep,
        }),
{
}

/// The local store wins over the file, and a read never asks for the local
/// store to be written: what is done to the file does not depend on it.
pub proof fn lemma_local_store_wins(stored: StoredConfig, local: KondoConfig)
    ensures
        read_outcome(stored, Some(local)).config == local,
        read_outcome(stored, Some(local)).action == read_outcome(stored, None).action,
{
}

/// Every window on which the effect failed is named, and no other.
pub proof fn lemma_failed_labels_complete(tried: Seq<(Seq<char>, bool)>, label: Seq<char>)
    ensures
        failed_labels(tried).contains(label) <==> tried.contains((label, false)),
    decreases tried.len(),
{
    if tried.len() > 0 {
        let rest = tried.drop_last();
        lemma_failed_labels_complete(rest, label);
        if tried.contains((label, false)) {
            let i = choose|i: int| 0 <= i < tried.len() && tried[i] == (label, false);
            if i < rest.len() {
                assert(rest[i] == (label, false));
            }
        }
        if rest.contains((label, false)) {
            let i = choose|i: int| 0 <= i < rest.len() && rest[i] == (label, false);
            assert(tried[i] == (label, false));
        }
        if !tried.last().1 {
            let named = failed_labels(rest).push(tried.last().0);
            assert(named.last() == tried.last().0);
            if failed_labels(rest).contains(label) {
                let i = choose|i: int| 0 <= i < failed_labels(rest).len() && failed_labels(rest)[i] == label;
                assert(named[i] == label);
            }
            if tried.last().0 == label {
                assert(named[named.len() - 1] == label);
                assert(tried[tried.len() - 1] == (label, false));
            }
        }
    }
}

} // verus!
