use vstd::prelude::*;

use crate::config::{with_description_spec, ConfigView, QemuConfig};
use crate::error::VexError;
use crate::locator::{config_name_of_file, name_of_file};

verus! {

/// What `rm` is asked to do.
#[derive(Debug, Clone)]
pub struct RemoveArgs {
    /// Configuration name to remove.
    pub name: String,
}

/// What `rename` is asked to do.
#[derive(Debug, Clone)]
pub struct RenameArgs {
    /// Current configuration name.
    pub old_name: String,
    /// New configuration name.
    pub new_name: String,
    /// A new description; the old one is kept when absent.
    pub desc: Option<String>,
    /// Overwrite an existing target without asking.
    pub force: bool,
}

/// What `list` is asked to do.
#[derive(Debug, Clone)]
pub struct ListArgs;

/// What `print` is asked to do.
#[derive(Debug, Clone)]
pub struct PrintArgs {
    /// Configuration name to print.
    pub name: String,
}

/// Operations on a stored name require it to exist.
pub fn require_existing(exists: bool) -> (r: Result<(), VexError>)
    ensures
        exists <==> r is Ok,
        !exists ==> r == Err::<(), VexError>(VexError::NotFound),
{
    if exists {
        Ok(())
    } else {
        Err(VexError::NotFound)
    }
}

/// The result of loading a name: `NotFound` when it has no file,
/// `SerializationError` when the file's content did not decode (`parsed` is
/// absent), else the decoded record.
pub fn load_result(exists: bool, parsed: Option<QemuConfig>) -> (r: Result<QemuConfig, VexError>)
    ensures
        !exists ==> r == Err::<QemuConfig, VexError>(VexError::NotFound),
        exists && parsed is None ==> r == Err::<QemuConfig, VexError>(
            VexError::SerializationError,
        ),
        exists ==> (parsed matches Some(c) ==> r == Ok::<QemuConfig, VexError>(c)),
{
    if !exists {
        return Err(VexError::NotFound);
    }
    match parsed {
        Some(c) => Ok(c),
        None => Err(VexError::SerializationError),
    }
}

/// How a rename goes on once its source is known to exist.
#[derive(Debug, Clone, Copy, PartialEq, Eq, Structural)]
pub enum RenameDecision {
    /// The user declined to overwrite the target: nothing changes.
    Cancelled,
    /// Write the record under the new name, then remove the old name.
    Proceed,
}

/// Whether the user must confirm before the rename overwrites its target.
pub open spec fn needs_confirmation_spec(old_exists: bool, new_exists: bool, force: bool) -> bool {
    old_exists && new_exists && !force
}

/// The rename protocol's decision; `confirmed` is the user's answer, which
/// counts only where confirmation is needed.
pub open spec fn rename_outcome(
    old_exists: bool,
    new_exists: bool,
    force: bool,
    confirmed: bool,
) -> Result<RenameDecision, VexError> {
    if !old_exists {
        Err(VexError::NotFound)
    } else if needs_confirmation_spec(old_exists, new_exists, force) && !confirmed {
        Ok(RenameDecision::Cancelled)
    } else {
        Ok(RenameDecision::Proceed)
    }
}

/// Whether the user must be asked before renaming.
pub fn needs_confirmation(old_exists: bool, new_exists: bool, force: bool) -> (r: bool)
    ensures
        r == needs_confirmation_spec(old_exists, new_exists, force),
{
    old_exists && new_exists && !force
}

/// Decides a rename from whether the two names exist, the force flag and,
/// where it was needed, the user's answer.
pub fn rename_decision(old_exists: bool, new_exists: bool, force: bool, confirmed: bool) -> (r:
    Result<RenameDecision, VexError>)
    ensures
        r == rename_outcome(old_exists, new_exists, force, confirmed),
{
    if !old_exists {
        Err(VexError::NotFound)
    } else if needs_confirmation(old_exists, new_exists, force) && !confirmed {
        Ok(RenameDecision::Cancelled)
    } else {
        Ok(RenameDecision::Proceed)
    }
}

/// One change to the stored configurations.
#[derive(Debug, Clone)]
pub enum StoreAction {
    /// Write `config` under `name`, replacing what was there.
    Write { name: String, config: QemuConfig },
    /// Remove the configuration stored under `name`.
    Delete { name: String },
}

pub enum ActionView {
    Write(Seq<char>, ConfigView),
    Delete(Seq<char>),
}

pub open spec fn action_view(a: StoreAction) -> ActionView {
    match a {
        StoreAction::Write { name, config } => ActionView::Write(name@, config@),
        StoreAction::Delete { name } => ActionView::Delete(name@),
    }
}

pub open spec fn actions_view(v: Seq<StoreAction>) -> Seq<ActionView> {
    v.map_values(|a: StoreAction| action_view(a))
}

/// The stored configurations after the actions, performed in order.
pub open spec fn apply_actions(dir: Map<Seq<char>, ConfigView>, actions: Seq<ActionView>) -> Map<
    Seq<char>,
    ConfigView,
>
    decreases actions.len(),
{
    if actions.len() == 0 {
        dir
    } else {
        let before = apply_actions(dir, actions.drop_last());
        match actions.last() {
            ActionView::Write(n, c) => before.insert(n, c),
            ActionView::Delete(n) => before.remove(n),
        }
    }
}

/// The actions of a rename that goes ahead: first the record, with its
/// description overlaid, is written under the new name; only then is the
/// old name removed.
pub open spec fn rename_actions_spec(
    old: Seq<char>,
    new: Seq<char>,
    config: ConfigView,
    desc: Option<Seq<char>>,
) -> Seq<ActionView> {
    seq![ActionView::Write(new, with_description_spec(config, desc)), ActionView::Delete(old)]
}

/// The actions that move `config` from `old_name` to `new_name`, with its
/// description replaced by `desc` when one is given.
pub fn rename_actions(old_name: String, new_name: String, config: QemuConfig, desc: Option<String>) -> (r:
    Vec<StoreAction>)
    ensures
        actions_view(r@) == rename_actions_spec(
            old_name@,
            new_name@,
            config@,
            crate::config::opt_view(desc),
        ),
{
    let renamed = config.with_description(desc);
    let mut r: Vec<StoreAction> = Vec::new();
    r.push(StoreAction::Write { name: new_name, config: renamed });
    r.push(StoreAction::Delete { name: old_name });
    assert(actions_view(r@) =~= rename_actions_spec(
        old_name@,
        new_name@,
        config@,
        crate::config::opt_view(desc),
    ));
    r
}

/// The stored configurations after a rename with decision `d`: on `Proceed`
/// the rename's actions are performed; otherwise nothing changes.
pub open spec fn rename_effect(
    dir: Map<Seq<char>, ConfigView>,
    old: Seq<char>,
    new: Seq<char>,
    desc: Option<Seq<char>>,
    d: Result<RenameDecision, VexError>,
) -> Map<Seq<char>, ConfigView> {
    match d {
        Ok(RenameDecision::Proceed) => apply_actions(dir, rename_actions_spec(old, new, dir[old], desc)),
        _ => dir,
    }
}

proof fn lemma_rename_actions_apply(
    dir: Map<Seq<char>, ConfigView>,
    old: Seq<char>,
    new: Seq<char>,
    desc: Option<Seq<char>>,
)
    ensures
        ({
            let acts = rename_actions_spec(old, new, dir[old], desc);
            let written = dir.insert(new, with_description_spec(dir[old], desc));
            &&& apply_actions(dir, acts.take(0)) == dir
            &&& apply_actions(dir, acts.take(1)) == written
            &&& apply_actions(dir, acts.take(2)) == written.remove(old)
            &&& acts.take(2) == acts
        }),
{
    let acts = rename_actions_spec(old, new, dir[old], desc);
    assert(acts.take(0).len() == 0);
    assert(acts.take(1).drop_last() =~= acts.take(0));
    assert(acts.take(2).drop_last() =~= acts.take(1));
    assert(acts.take(1).last() == acts[0]);
    assert(acts.take(2).last() == acts[1]);
    assert(acts.take(2) =~= acts);
    let written = dir.insert(new, with_description_spec(dir[old], desc));
    assert(apply_actions(dir, acts.take(0)) == dir);
    assert(apply_actions(dir, acts.take(1)) == apply_actions(dir, acts.take(0)).insert(
        new,
        with_description_spec(dir[old], desc),
    ));
    assert(apply_actions(dir, acts.take(2)) == apply_actions(dir, acts.take(1)).remove(old));
}

/// Stopping a rename after any prefix of its actions loses nothing: the
/// record stays reachable under the old name or, overlaid, under the new one.
pub proof fn law_rename_prefix_keeps_record(
    dir: Map<Seq<char>, ConfigView>,
    old: Seq<char>,
    new: Seq<char>,
    desc: Option<Seq<char>>,
    k: int,
)
    requires
        dir.contains_key(old),
        old != new,
        0 <= k <= 2,
    ensures
        ({
            let after = apply_actions(dir, rename_actions_spec(old, new, dir[old], desc).take(k));
            (after.contains_key(old) && after[old] == dir[old]) || (after.contains_key(new)
                && after[new] == with_description_spec(dir[old], desc))
        }),
{
    lemma_rename_actions_apply(dir, old, new, desc);
}

/// Renaming to a name that is not taken, without force, asks nothing and
/// leaves the record under the new name only.
pub proof fn law_rename_to_free_name(
    dir: Map<Seq<char>, ConfigView>,
    old: Seq<char>,
    new: Seq<char>,
    desc: Option<Seq<char>>,
    confirmed: bool,
)
    requires
        dir.contains_key(old),
        !dir.contains_key(new),
    ensures
        !needs_confirmation_spec(true, false, false),
        rename_outcome(true, false, false, confirmed) == Ok::<RenameDecision, VexError>(
            RenameDecision::Proceed,
        ),
        ({
            let after = rename_effect(dir, old, new, desc, rename_outcome(true, false, false, confirmed));
            &&& after.contains_key(new)
            &&& !after.contains_key(old)
            &&& after.dom() == dir.dom().remove(old).insert(new)
            &&& after[new] == with_description_spec(dir[old], desc)
        }),
{
    let after = rename_effect(dir, old, new, desc, rename_outcome(true, false, false, confirmed));
    assert(old != new);
    lemma_rename_actions_apply(dir, old, new, desc);
    assert(after.dom() =~= dir.dom().remove(old).insert(new));
}

/// Renaming onto an existing name without force, when the user declines,
/// is a cancellation that leaves every stored configuration as it was.
pub proof fn law_rename_declined_keeps_both(
    dir: Map<Seq<char>, ConfigView>,
    old: Seq<char>,
    new: Seq<char>,
    desc: Option<Seq<char>>,
)
    requires
        dir.contains_key(old),
        dir.contains_key(new),
    ensures
        needs_confirmation_spec(true, true, false),
        rename_outcome(true, true, false, false) == Ok::<RenameDecision, VexError>(
            RenameDecision::Cancelled,
        ),
        rename_effect(dir, old, new, desc, rename_outcome(true, true, false, false)) == dir,
{
}

pub open spec fn entries_view(entries: Seq<(String, Option<QemuConfig>)>) -> Seq<
    (Seq<char>, Option<ConfigView>),
> {
    entries.map_values(
        |e: (String, Option<QemuConfig>)|
            (
                e.0@,
                match e.1 {
                    Some(c) => Some(c@),
                    None => None,
                },
            ),
    )
}

pub open spec fn listed_view(items: Seq<(String, QemuConfig)>) -> Seq<(Seq<char>, ConfigView)> {
    items.map_values(|e: (String, QemuConfig)| (e.0@, e.1@))
}

/// The configurations a directory listing yields, in the entries' order:
/// each entry whose file name is a configuration file and whose content
/// decoded; every other entry is skipped.
pub open spec fn listing(entries: Seq<(Seq<char>, Option<ConfigView>)>) -> Seq<
    (Seq<char>, ConfigView),
>
    decreases entries.len(),
{
    if entries.len() == 0 {
        Seq::empty()
    } else {
        let prev = listing(entries.drop_last());
        let e = entries.last();
        match (name_of_file(e.0), e.1) {
            (Some(n), Some(c)) => prev.push((n, c)),
            _ => prev,
        }
    }
}

/// An entry whose content did not decode adds nothing to the listing and
/// stops nothing: the listing is that of the other entries.
pub proof fn law_listing_skips_undecodable(
    entries: Seq<(Seq<char>, Option<ConfigView>)>,
    file: Seq<char>,
)
    ensures
        listing(entries.push((file, None))) == listing(entries),
{
    assert(entries.push((file, None)).drop_last() =~= entries);
}

/// A decoded configuration file adds exactly its name and record.
pub proof fn law_listing_keeps_decoded(
    entries: Seq<(Seq<char>, Option<ConfigView>)>,
    name: Seq<char>,
    c: ConfigView,
)
    requires
        crate::locator::valid_name(name),
    ensures
        listing(entries.push((crate::locator::file_name_of(name), Some(c)))) == listing(
            entries,
        ).push((name, c)),
{
    crate::locator::law_file_name_round_trip(name);
    assert(entries.push((crate::locator::file_name_of(name), Some(c))).drop_last() =~= entries);
}

/// The named configurations among directory entries, each given as its file
/// name and its decoded content (absent when it did not decode).
pub fn select_configs(entries: &Vec<(String, Option<QemuConfig>)>) -> (r: Vec<(String, QemuConfig)>)
    ensures
        listed_view(r@) == listing(entries_view(entries@)),
{
    let ghost ev = entries_view(entries@);
    let mut r: Vec<(String, QemuConfig)> = Vec::new();
    let mut i: usize = 0;
    while i < entries.len()
        invariant
            ev == entries_view(entries@),
            i <= entries.len(),
            listed_view(r@) == listing(ev.subrange(0, i as int)),
        decreases entries.len() - i,
    {
        let ghost prefix = ev.subrange(0, i as int + 1);
        assert(prefix.drop_last() =~= ev.subrange(0, i as int));
        assert(prefix.last() == ev[i as int]);
        let name = config_name_of_file(entries[i].0.as_str());
        match (name, &entries[i].1) {
            (Some(n), Some(c)) => {
                let ghost before = r@;
                r.push((n, c.duplicate()));
                assert(listed_view(r@) =~= listed_view(before).push((n@, c@)));
            },
            _ => {},
        }
        i = i + 1;
    }
    assert(ev.subrange(0, ev.len() as int) =~= ev);
    r
}

} // verus!
