use vstd::prelude::*;

verus! {

/// A change to whether one entity carries a marker component
/// (such as the selection marker or the gizmo-target marker).
/// Entities are identified by their 64-bit id.
#[derive(Clone, Copy, Debug, PartialEq, Eq, Structural)]
pub enum MarkerCommand {
    Insert(u64),
    Remove(u64),
}

/// The set of marked entities after one command.
pub open spec fn apply_marker_command(marked: Set<u64>, cmd: MarkerCommand) -> Set<u64> {
    match cmd {
        MarkerCommand::Insert(e) => marked.insert(e),
        MarkerCommand::Remove(e) => marked.remove(e),
    }
}

/// The set of marked entities after a sequence of commands, applied in order.
pub open spec fn apply_marker_commands(marked: Set<u64>, cmds: Seq<MarkerCommand>) -> Set<u64>
    decreases cmds.len(),
{
    if cmds.len() == 0 {
        marked
    } else {
        apply_marker_command(apply_marker_commands(marked, cmds.drop_last()), cmds.last())
    }
}

/// Commands that remove the marker from every listed entity other than `keep`, in list order.
pub open spec fn removals_except(entities: Seq<u64>, keep: u64) -> Seq<MarkerCommand>
    decreases entities.len(),
{
    if entities.len() == 0 {
        Seq::empty()
    } else {
        let prev = removals_except(entities.drop_last(), keep);
        if entities.last() != keep {
            prev.push(MarkerCommand::Remove(entities.last()))
        } else {
            prev
        }
    }
}

/// Commands that remove the marker from every listed entity, in list order.
pub open spec fn removals(entities: Seq<u64>) -> Seq<MarkerCommand>
    decreases entities.len(),
{
    if entities.len() == 0 {
        Seq::empty()
    } else {
        removals(entities.drop_last()).push(MarkerCommand::Remove(entities.last()))
    }
}

/// Applying two command sequences one after the other is applying their concatenation.
pub proof fn lemma_apply_concat(marked: Set<u64>, a: Seq<MarkerCommand>, b: Seq<MarkerCommand>)
    ensures
        apply_marker_commands(marked, a + b) == apply_marker_commands(
            apply_marker_commands(marked, a),
            b,
        ),
    decreases b.len(),
{
    if b.len() == 0 {
        assert(a + b =~= a);
    } else {
        lemma_apply_concat(marked, a, b.drop_last());
        assert((a + b).drop_last() =~= a + b.drop_last());
        assert((a + b).last() == b.last());
    }
}

/// A non-empty list contains exactly what its prefix without the last entity contains,
/// and its last entity.
pub proof fn lemma_contains_drop_last(entities: Seq<u64>)
    requires
        entities.len() > 0,
    ensures
        forall|x: u64| #[trigger]
            entities.contains(x) <==> (entities.drop_last().contains(x) || x == entities.last()),
{
    let prefix = entities.drop_last();
    assert forall|x: u64| #[trigger] entities.contains(x) <==> (prefix.contains(x) || x
        == entities.last()) by {
        if entities.contains(x) {
            let i = choose|i: int| 0 <= i < entities.len() && entities[i] == x;
            if i < entities.len() - 1 {
                assert(prefix[i] == x);
            }
        }
        if prefix.contains(x) {
            let i = choose|i: int| 0 <= i < prefix.len() && prefix[i] == x;
            assert(entities[i] == x);
        }
        if x == entities.last() {
            assert(entities[entities.len() - 1] == x);
        }
    }
}

/// Removing the marker from every listed entity but `keep` leaves exactly the marked
/// entities that are `keep` or are not listed.
pub proof fn lemma_removals_except(marked: Set<u64>, entities: Seq<u64>, keep: u64)
    ensures
        apply_marker_commands(marked, removals_except(entities, keep)) =~= marked.filter(
            |x: u64| x == keep || !entities.contains(x),
        ),
    decreases entities.len(),
{
    if entities.len() > 0 {
        let prefix = entities.drop_last();
        lemma_removals_except(marked, prefix, keep);
        let prev = removals_except(prefix, keep);
        if entities.last() != keep {
            assert(prev.push(MarkerCommand::Remove(entities.last())).drop_last() =~= prev);
        }
        lemma_contains_drop_last(entities);
    }
}

/// Removing the marker from every listed entity leaves exactly the marked entities
/// that are not listed.
pub proof fn lemma_removals(marked: Set<u64>, entities: Seq<u64>)
    ensures
        apply_marker_commands(marked, removals(entities)) =~= marked.filter(
            |x: u64| !entities.contains(x),
        ),
    decreases entities.len(),
{
    if entities.len() > 0 {
        let prefix = entities.drop_last();
        lemma_removals(marked, prefix);
        let prev = removals(prefix);
        assert(prev.push(MarkerCommand::Remove(entities.last())).drop_last() =~= prev);
        lemma_contains_drop_last(entities);
    }
}

/// The commands that remove the marker from every listed entity other than `keep`,
/// in list order.
pub fn remove_all_except(entities: &Vec<u64>, keep: u64) -> (cmds: Vec<MarkerCommand>)
    ensures
        cmds@ == removals_except(entities@, keep),
{
    let mut cmds: Vec<MarkerCommand> = Vec::new();
    let mut i: usize = 0;
    while i < entities.len()
        invariant
            i <= entities.len(),
            cmds@ == removals_except(entities@.take(i as int), keep),
        decreases entities.len() - i,
    {
        assert(entities@.take(i + 1).drop_last() =~= entities@.take(i as int));
        if entities[i] != keep {
            cmds.push(MarkerCommand::Remove(entities[i]));
        }
        i = i + 1;
    }
    assert(entities@.take(entities.len() as int) =~= entities@);
    cmds
}

/// The commands that remove the marker from every listed entity, in list order.
pub fn remove_all(entities: &Vec<u64>) -> (cmds: Vec<MarkerCommand>)
    ensures
        cmds@ == removals(entities@),
{
    let mut cmds: Vec<MarkerCommand> = Vec::new();
    let mut i: usize = 0;
    while i < entities.len()
        invariant
            i <= entities.len(),
            cmds@ == removals(entities@.take(i as int)),
        decreases entities.len() - i,
    {
        assert(entities@.take(i + 1).drop_last() =~= entities@.take(i as int));
        cmds.push(MarkerCommand::Remove(entities[i]));
        i = i + 1;
    }
    assert(entities@.take(entities.len() as int) =~= entities@);
    cmds
}

/// A copy of a list of entities.
pub fn copy_entities(entities: &Vec<u64>) -> (copy: Vec<u64>)
    ensures
        copy@ == entities@,
{
    let mut copy: Vec<u64> = Vec::new();
    let mut i: usize = 0;
    while i < entities.len()
        invariant
            i <= entities.len(),
            copy@ == entities@.take(i as int),
        decreases entities.len() - i,
    {
        copy.push(entities[i]);
        i = i + 1;
        assert(copy@ =~= entities@.take(i as int));
    }
    assert(entities@.take(entities.len() as int) =~= entities@);
    copy
}

} // verus!
