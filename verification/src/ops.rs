//! The two operations: listing every device's identifier, and resolving one
//! identifier to a device's primary node.

use vstd::prelude::*;

use crate::device::{Device, get_device_id, spec_device_id};
use crate::reply::{AddCommandReply, ErrorReply, InfoCommandReply};

verus! {

/// The index of the last device in `devices` whose derived identifier is
/// `id`, or `-1` when none matches.
pub open spec fn last_match_index(devices: Seq<Device>, id: Seq<char>) -> int
    decreases devices.len(),
{
    if devices.len() == 0 {
        -1
    } else if spec_device_id(devices.last().info) == id {
        devices.len() - 1
    } else {
        last_match_index(devices.drop_last(), id)
    }
}

/// Law: `last_match_index` names the greatest matching index — the match
/// selected when identifiers collide is the last one in enumeration order —
/// and is `-1` exactly when no device matches.
pub proof fn lemma_last_match_index_spec(devices: Seq<Device>, id: Seq<char>)
    ensures
        -1 <= last_match_index(devices, id) < devices.len(),
        last_match_index(devices, id) >= 0 ==> spec_device_id(
            devices[last_match_index(devices, id)].info,
        ) == id,
        forall|j: int|
            last_match_index(devices, id) < j < devices.len() ==> spec_device_id(
                devices[j].info,
            ) != id,
    decreases devices.len(),
{
    if devices.len() > 0 && spec_device_id(devices.last().info) != id {
        lemma_last_match_index_spec(devices.drop_last(), id);
        assert forall|j: int|
            last_match_index(devices, id) < j < devices.len() implies spec_device_id(
            devices[j].info,
        ) != id by {
            if j < devices.len() - 1 {
                assert(devices.drop_last()[j] == devices[j]);
            }
        }
    }
}

proof fn lemma_last_match_index_take_step(devices: Seq<Device>, id: Seq<char>, i: int)
    requires
        0 <= i < devices.len(),
    ensures
        last_match_index(devices.take(i + 1), id) == if spec_device_id(devices[i].info) == id {
            i
        } else {
            last_match_index(devices.take(i), id)
        },
{
    let t = devices.take(i + 1);
    assert(t.last() == devices[i]);
    assert(t.drop_last() =~= devices.take(i));
}

/// The `Info` command: the derived identifier of every enumerated device,
/// in the order the enumerator returned them.
pub fn info(devices: &Vec<Device>) -> (r: InfoCommandReply)
    ensures
        r.device_ids@.len() == devices@.len(),
        forall|i: int|
            0 <= i < devices@.len() ==> #[trigger] r.device_ids@[i]@ == spec_device_id(
                devices@[i].info,
            ),
{
    let mut device_ids: Vec<String> = Vec::with_capacity(devices.len());
    let mut i: usize = 0;
    while i < devices.len()
        invariant
            i <= devices@.len(),
            device_ids@.len() == i as int,
            forall|j: int|
                0 <= j < i as int ==> #[trigger] device_ids@[j]@ == spec_device_id(
                    devices@[j].info,
                ),
        decreases devices@.len() - i,
    {
        device_ids.push(get_device_id(&devices[i]));
        i = i + 1;
    }
    InfoCommandReply { device_ids }
}

/// The `Add` command: scans every enumerated device and resolves the target
/// identifier to the matched device's primary node. The scan does not break
/// early, so when identifiers collide the last match in enumeration order
/// wins. When no device matches, the reply is the code-1 error carrying the
/// target; when the matched device has no primary node, the reply is a
/// code-3 error carrying the target.
pub fn add(device_id: &String, devices: &Vec<Device>) -> (r: Result<AddCommandReply, ErrorReply>)
    ensures
        ({
            let k = last_match_index(devices@, device_id@);
            match r {
                Ok(reply) => k >= 0 && (devices@[k].nodes.primary matches Some(p)
                    && reply.primary_node@ == p@),
                Err(e) => if k == -1 {
                    e.code == 1 && e.message@ == "Could not find node for device_id: "@
                        + device_id@
                } else {
                    devices@[k].nodes.primary is None && e.code == 3 && e.message@
                        == "No primary node for device_id: "@ + device_id@
                },
            }
        }),
{
    let mut found: Option<usize> = None;
    let mut i: usize = 0;
    while i < devices.len()
        invariant
            i <= devices@.len(),
            match found {
                Some(j) => j < i && last_match_index(devices@.take(i as int), device_id@)
                    == j as int,
                None => last_match_index(devices@.take(i as int), device_id@) == -1,
            },
        decreases devices@.len() - i,
    {
        let id_i = get_device_id(&devices[i]);
        proof {
            lemma_last_match_index_take_step(devices@, device_id@, i as int);
        }
        if device_id.eq(&id_i) {
            found = Some(i);
        }
        i = i + 1;
    }
    proof {
        assert(devices@.take(devices@.len() as int) =~= devices@);
    }
    match found {
        Some(j) => match &devices[j].nodes.primary {
            Some(p) => Ok(AddCommandReply { primary_node: p.clone() }),
            None => {
                let mut m = String::from_str("No primary node for device_id: ");
                m.append(device_id.as_str());
                Err(ErrorReply { code: 3, message: m })
            },
        },
        None => {
            let mut m = String::from_str("Could not find node for device_id: ");
            m.append(device_id.as_str());
            Err(ErrorReply { code: 1, message: m })
        },
    }
}

} // verus!
