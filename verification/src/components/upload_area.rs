//! Uploads: pairing the server's upload targets with the dropped files, and the outcome.
use crate::rpc::aoba::{Id, IdList};
use vstd::prelude::*;

verus! {

/// Where an upload stands.
#[derive(Clone, Copy, Debug, PartialEq, Eq, Structural)]
pub enum UploadState {
    Idle,
    Uploading(usize),
    Done,
}

/// `k` is the position of the first file named `name`, or nothing when no file has that name.
pub open spec fn is_first_file_named(file_names: Seq<String>, name: Seq<char>, k: Option<usize>) -> bool {
    match k {
        Some(k) => k < file_names.len() && file_names[k as int]@ == name && forall|j: int|
            0 <= j < k ==> file_names[j]@ != name,
        None => forall|j: int| 0 <= j < file_names.len() ==> file_names[j]@ != name,
    }
}

/// The position of the first dropped file with the target's file name, if any.
pub fn find_file_for_target(file_names: &Vec<String>, filename: &String) -> (k: Option<usize>)
    ensures
        is_first_file_named(file_names@, filename@, k),
{
    let mut i: usize = 0;
    while i < file_names.len()
        invariant
            i <= file_names@.len(),
            forall|j: int| 0 <= j < i ==> file_names@[j]@ != filename@,
        decreases file_names@.len() - i,
    {
        if file_names[i].eq(filename) {
            return Some(i);
        }
        i = i + 1;
    }
    None
}

/// For each upload target, in order, the position of the first dropped file with its file name;
/// a target that no dropped file matches gets nothing and is skipped.
pub fn plan_uploads(target_names: &Vec<String>, file_names: &Vec<String>) -> (plan: Vec<Option<usize>>)
    ensures
        plan@.len() == target_names@.len(),
        forall|i: int|
            0 <= i < plan@.len() ==> is_first_file_named(
                file_names@,
                target_names@[i]@,
                #[trigger] plan@[i],
            ),
{
    let mut plan: Vec<Option<usize>> = Vec::new();
    let mut i: usize = 0;
    while i < target_names.len()
        invariant
            i <= target_names@.len(),
            plan@.len() == i,
            forall|j: int|
                0 <= j < i ==> is_first_file_named(file_names@, target_names@[j]@, #[trigger] plan@[j]),
        decreases target_names@.len() - i,
    {
        let k = find_file_for_target(file_names, &target_names[i]);
        plan.push(k);
        i = i + 1;
    }
    plan
}

/// The ids that the transfers gave back, in target order: a target counts when it had a file
/// to send and its transfer returned an id.
pub open spec fn uploaded_in_order(plan: Seq<Option<usize>>, transfers: Seq<Option<Id>>) -> Seq<Id>
    decreases transfers.len(),
{
    if transfers.len() == 0 || plan.len() == 0 {
        Seq::empty()
    } else {
        let rest = uploaded_in_order(plan.drop_last(), transfers.drop_last());
        if plan.last() is Some && transfers.last() is Some {
            rest.push(transfers.last()->0)
        } else {
            rest
        }
    }
}

/// How many targets had a file to send and got an id back from their transfer.
pub open spec fn transfers_through(plan: Seq<Option<usize>>, transfers: Seq<Option<Id>>) -> nat {
    Set::new(|i: int| 0 <= i < plan.len() && i < transfers.len() && plan[i] is Some && transfers[i] is Some).len()
}

/// Collecting goes target by target: with no targets nothing is collected; a further target
/// that had a file and whose transfer returned an id adds exactly that id at the end; a further
/// target without a file, or whose transfer failed, adds nothing.
pub proof fn lemma_collecting_goes_target_by_target(
    plan: Seq<Option<usize>>,
    transfers: Seq<Option<Id>>,
    slot: Option<usize>,
    transfer: Option<Id>,
)
    requires
        plan.len() == transfers.len(),
    ensures
        uploaded_in_order(Seq::empty(), Seq::empty()) == Seq::<Id>::empty(),
        slot is Some && transfer is Some ==> uploaded_in_order(plan.push(slot), transfers.push(transfer))
            == uploaded_in_order(plan, transfers).push(transfer->0),
        !(slot is Some && transfer is Some) ==> uploaded_in_order(plan.push(slot), transfers.push(transfer))
            == uploaded_in_order(plan, transfers),
{
    assert(plan.push(slot).drop_last() =~= plan);
    assert(transfers.push(transfer).drop_last() =~= transfers);
}

/// Every target that had a file and got an id back contributes one id: the number collected
/// is the number of such targets, and the `k`-th collected id is the id of one of them.
pub proof fn lemma_collected_count(plan: Seq<Option<usize>>, transfers: Seq<Option<Id>>)
    requires
        plan.len() == transfers.len(),
    ensures
        uploaded_in_order(plan, transfers).len() == transfers_through(plan, transfers),
        forall|k: int|
            0 <= k < uploaded_in_order(plan, transfers).len() ==> exists|i: int|
                0 <= i < plan.len() && plan[i] is Some && #[trigger] transfers[i] == Some(
                    #[trigger] uploaded_in_order(plan, transfers)[k],
                ),
    decreases plan.len(),
{
    let through = Set::new(
        |i: int| 0 <= i < plan.len() && i < transfers.len() && plan[i] is Some && transfers[i] is Some,
    );
    if plan.len() == 0 {
        assert(through =~= Set::<int>::empty());
    } else {
        let p = plan.drop_last();
        let t = transfers.drop_last();
        lemma_collected_count(p, t);
        let before = Set::new(
            |i: int| 0 <= i < p.len() && i < t.len() && p[i] is Some && t[i] is Some,
        );
        let n = plan.len() - 1;
        vstd::set_lib::lemma_int_range(0, n);
        assert(before.subset_of(vstd::set_lib::set_int_range(0, n)));
        vstd::set_lib::lemma_len_subset(before, vstd::set_lib::set_int_range(0, n));
        if plan[n] is Some && transfers[n] is Some {
            assert(through =~= before.insert(n));
        } else {
            assert(through =~= before);
        }
        let r = uploaded_in_order(plan, transfers);
        let rp = uploaded_in_order(p, t);
        assert forall|k: int| 0 <= k < r.len() implies exists|i: int|
            0 <= i < plan.len() && plan[i] is Some && #[trigger] transfers[i] == Some(
                #[trigger] r[k],
            ) by {
            if k < rp.len() {
                let i = choose|i: int|
                    0 <= i < p.len() && p[i] is Some && #[trigger] t[i] == Some(#[trigger] rp[k]);
                assert(transfers[i] == t[i]);
                assert(r[k] == rp[k]);
            } else {
                assert(transfers[n] == Some(r[k]));
            }
        }
    }
}

/// Collects, in target order, the ids of the transfers that went through. `transfers[i]` is
/// what the transfer for target `i` gave back; a target without a file counts for nothing.
pub fn collect_uploaded_ids(plan: &Vec<Option<usize>>, transfers: Vec<Option<Id>>) -> (ids: Vec<Id>)
    requires
        plan@.len() == transfers@.len(),
    ensures
        ids@ == uploaded_in_order(plan@, transfers@),
{
    let ghost orig = transfers@;
    let n = plan.len();
    let mut rest = transfers;
    let mut ids: Vec<Id> = Vec::new();
    let mut k: usize = 0;
    assert(orig.take(0) =~= Seq::<Option<Id>>::empty());
    assert(orig.skip(0) =~= orig);
    while rest.len() > 0
        invariant
            k <= orig.len(),
            n == plan@.len(),
            plan@.len() == orig.len(),
            rest@ == orig.skip(k as int),
            ids@ == uploaded_in_order(plan@.take(k as int), orig.take(k as int)),
        decreases rest@.len(),
    {
        let t = rest.remove(0);
        assert(t == orig[k as int]);
        assert(orig.take(k + 1).drop_last() =~= orig.take(k as int));
        assert(plan@.take(k + 1).drop_last() =~= plan@.take(k as int));
        assert(orig.take(k + 1).last() == orig[k as int]);
        assert(plan@.take(k + 1).last() == plan@[k as int]);
        assert(rest@ =~= orig.skip(k + 1));
        if plan[k].is_some() {
            match t {
                Some(id) => ids.push(id),
                None => {},
            }
        }
        k = k + 1;
    }
    assert(orig.take(orig.len() as int) =~= orig);
    assert(plan@.take(orig.len() as int) =~= plan@);
    ids
}

/// The message of an upload that uploaded nothing.
pub open spec fn nothing_uploaded_message() -> Seq<char> {
    "No files uploaded"@
}

/// After the transfers: the ids to confirm with the server, or the failure when no file got
/// through.
pub fn uploaded_ids_to_confirm(uploaded: Vec<Id>) -> (r: Result<IdList, Vec<String>>)
    ensures
        match r {
            Ok(list) => uploaded@.len() > 0 && list.value@ == uploaded@,
            Err(msgs) => uploaded@.len() == 0 && msgs@.len() == 1 && msgs@[0]@
                == nothing_uploaded_message(),
        },
{
    if uploaded.len() == 0 {
        let mut msgs = Vec::new();
        msgs.push(String::from_str("No files uploaded"));
        Err(msgs)
    } else {
        Ok(IdList { value: uploaded })
    }
}

/// The failure of an upload that the server did not start.
pub fn upload_not_started() -> (msgs: Vec<String>)
    ensures
        msgs@.len() == 1,
        msgs@[0]@ == "No upload"@,
{
    let mut msgs = Vec::new();
    msgs.push(String::from_str("No upload"));
    msgs
}

} // verus!
