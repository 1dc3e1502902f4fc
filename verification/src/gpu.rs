//! Choosing the physical device and the queue families to use on it.

use crate::consts::DEVICE_TYPE_CPU;
use crate::consts::DEVICE_TYPE_DISCRETE_GPU;
use crate::consts::DEVICE_TYPE_INTEGRATED_GPU;
use crate::consts::DEVICE_TYPE_OTHER;
use crate::consts::DEVICE_TYPE_VIRTUAL_GPU;
use crate::consts::QUEUE_COMPUTE;
use crate::consts::QUEUE_GRAPHICS;
use crate::consts::QUEUE_TRANSFER;
use crate::device::Error;
use crate::queues::QueueFamilies;
use vstd::prelude::*;

verus! {

/// The lowest version of the device interface that the renderer runs on:
/// major version one, minor version three.
pub const API_VERSION_1_3: u32 = 0x0040_3000;

/// What is known of one queue family of a physical device.
#[derive(Clone, Copy, Debug, PartialEq, Eq, Structural)]
pub struct QueueFamilyInfo {
    /// What the queues of the family can do, one bit each.
    pub queue_flags: u32,
    /// Whether the queues of the family can present to the surface.
    pub has_present: bool,
}

/// What is known of one physical device.
#[derive(Debug)]
pub struct GpuInfo {
    pub api_version: u32,
    pub device_type: i32,
    /// The names of the extensions of the device, or `None` where the
    /// device did not list them.
    pub extensions: Option<Vec<String>>,
    /// How many formats the surface offers on the device, or `None` where
    /// they could not be counted.
    pub surface_formats: Option<u32>,
    /// How many present modes the surface offers on the device, or `None`
    /// where they could not be counted.
    pub surface_present_modes: Option<u32>,
    pub queue_families: Vec<QueueFamilyInfo>,
}

/// What a queue is wanted for.
#[derive(Clone, Copy, Debug, PartialEq, Eq, Structural)]
pub enum Role {
    Present,
    Graphics,
    Transfer,
    Compute,
}

/// How much a device of the given type is liked: the more, the better.
pub open spec fn spec_score(device_type: i32) -> usize {
    if device_type == DEVICE_TYPE_DISCRETE_GPU {
        5
    } else if device_type == DEVICE_TYPE_INTEGRATED_GPU {
        4
    } else if device_type == DEVICE_TYPE_VIRTUAL_GPU {
        3
    } else if device_type == DEVICE_TYPE_CPU {
        2
    } else if device_type == DEVICE_TYPE_OTHER {
        1
    } else {
        0
    }
}

/// How much a device of the given type is liked.
pub fn score(device_type: i32) -> (r: usize)
    ensures
        r == spec_score(device_type),
{
    if device_type == DEVICE_TYPE_DISCRETE_GPU {
        5
    } else if device_type == DEVICE_TYPE_INTEGRATED_GPU {
        4
    } else if device_type == DEVICE_TYPE_VIRTUAL_GPU {
        3
    } else if device_type == DEVICE_TYPE_CPU {
        2
    } else if device_type == DEVICE_TYPE_OTHER {
        1
    } else {
        0
    }
}

/// Whether `name` is among `names`.
pub open spec fn spec_lists(names: Seq<String>, name: Seq<char>) -> bool {
    exists|i: int| 0 <= i < names.len() && #[trigger] names[i]@ == name
}

/// Whether a device with the extensions `names` has every extension that
/// the renderer needs: the swapchain, acceleration structures, the ray
/// tracing pipeline and deferred host operations. A device that did not
/// list its extensions has not.
pub open spec fn spec_has_extensions(names: Option<Vec<String>>) -> bool {
    match names {
        Some(names) => spec_lists(names@, "VK_KHR_swapchain"@) && spec_lists(
            names@,
            "VK_KHR_acceleration_structure"@,
        ) && spec_lists(names@, "VK_KHR_ray_tracing_pipeline"@) && spec_lists(
            names@,
            "VK_KHR_deferred_host_operations"@,
        ),
        None => false,
    }
}

/// Whether `name` is among `names`.
fn lists(names: &Vec<String>, name: &str) -> (r: bool)
    ensures
        r == spec_lists(names@, name@),
{
    let wanted = name.to_owned();
    let mut i: usize = 0;
    while i < names.len()
        invariant
            i <= names@.len(),
            wanted@ == name@,
            forall|j: int| 0 <= j < i ==> names@[j]@ != name@,
        decreases names@.len() - i,
    {
        if names[i] == wanted {
            return true;
        }
        i += 1;
    }
    false
}

/// Whether a device with the extensions `names` has every extension that
/// the renderer needs.
pub fn has_extensions(names: &Option<Vec<String>>) -> (r: bool)
    ensures
        r == spec_has_extensions(*names),
{
    match names {
        Some(names) => lists(names, "VK_KHR_swapchain") && lists(
            names,
            "VK_KHR_acceleration_structure",
        ) && lists(names, "VK_KHR_ray_tracing_pipeline") && lists(
            names,
            "VK_KHR_deferred_host_operations",
        ),
        None => false,
    }
}

/// The names of the extensions that the renderer needs of a device: the
/// swapchain, acceleration structures, the ray tracing pipeline and
/// deferred host operations.
pub fn required_extensions() -> (r: Vec<String>)
    ensures
        r@.len() == 4,
        r@[0]@ == "VK_KHR_swapchain"@,
        r@[1]@ == "VK_KHR_acceleration_structure"@,
        r@[2]@ == "VK_KHR_ray_tracing_pipeline"@,
        r@[3]@ == "VK_KHR_deferred_host_operations"@,
{
    let mut names: Vec<String> = Vec::new();
    names.push("VK_KHR_swapchain".to_owned());
    names.push("VK_KHR_acceleration_structure".to_owned());
    names.push("VK_KHR_ray_tracing_pipeline".to_owned());
    names.push("VK_KHR_deferred_host_operations".to_owned());
    names
}

/// The layers to enable of those that are available: the validation layer
/// where it is among them, else none.
pub fn instance_layers(available: &Vec<String>) -> (r: Vec<String>)
    ensures
        if spec_lists(available@, "VK_LAYER_KHRONOS_validation"@) {
            r@.len() == 1 && r@[0]@ == "VK_LAYER_KHRONOS_validation"@
        } else {
            r@.len() == 0
        },
{
    let mut layers: Vec<String> = Vec::new();
    if lists(available, "VK_LAYER_KHRONOS_validation") {
        layers.push("VK_LAYER_KHRONOS_validation".to_owned());
    }
    layers
}

/// Whether the surface can be presented to from a device on which it
/// offers this many formats and present modes: at least one of each.
pub fn has_surface_support(formats: Option<u32>, present_modes: Option<u32>) -> (r: bool)
    ensures
        r == ((formats matches Some(f) && f != 0) && (present_modes matches Some(m) && m != 0)),
{
    match formats {
        Some(f) => {
            if f == 0 {
                return false;
            }
        },
        None => {
            return false;
        },
    }
    match present_modes {
        Some(m) => m != 0,
        None => false,
    }
}

/// The number of ones in the binary form of `x`.
pub open spec fn spec_count_ones(x: u32) -> nat
    decreases x,
{
    if x == 0 {
        0
    } else {
        (x % 2) as nat + spec_count_ones(x / 2)
    }
}

/// No number of 32 bits has more than 32 ones.
pub proof fn lemma_count_ones_bound(x: u32, bits: nat)
    requires
        (x as int) < vstd::arithmetic::power2::pow2(bits),
    ensures
        spec_count_ones(x) <= bits,
    decreases x,
{
    if x != 0 {
        if bits == 0 {
            vstd::arithmetic::power2::lemma2_to64();
        } else {
            vstd::arithmetic::power2::lemma_pow2_unfold(bits);
            lemma_count_ones_bound(x / 2, (bits - 1) as nat);
        }
    }
}

/// The number of ones in the binary form of `x`.
pub fn count_ones(x: u32) -> (r: u32)
    ensures
        r == spec_count_ones(x),
        r <= 32,
{
    proof {
        vstd::arithmetic::power2::lemma2_to64();
        lemma_count_ones_bound(x, 32);
    }
    let mut rest = x;
    let mut ones: u32 = 0;
    while rest != 0
        invariant
            ones + spec_count_ones(rest) == spec_count_ones(x),
            spec_count_ones(x) <= 32,
        decreases rest,
    {
        ones = ones + rest % 2;
        rest = rest / 2;
    }
    ones
}

/// Whether a queue of `family` can serve `role`.
pub open spec fn spec_serves(family: QueueFamilyInfo, role: Role) -> bool {
    match role {
        Role::Present => family.has_present,
        Role::Graphics => family.queue_flags & QUEUE_GRAPHICS == QUEUE_GRAPHICS,
        Role::Transfer => family.queue_flags & QUEUE_TRANSFER == QUEUE_TRANSFER,
        Role::Compute => family.queue_flags & QUEUE_COMPUTE == QUEUE_COMPUTE,
    }
}

/// Whether a queue of `family` can serve `role`.
pub fn serves(family: &QueueFamilyInfo, role: Role) -> (r: bool)
    ensures
        r == spec_serves(*family, role),
{
    match role {
        Role::Present => family.has_present,
        Role::Graphics => family.queue_flags & QUEUE_GRAPHICS == QUEUE_GRAPHICS,
        Role::Transfer => family.queue_flags & QUEUE_TRANSFER == QUEUE_TRANSFER,
        Role::Compute => family.queue_flags & QUEUE_COMPUTE == QUEUE_COMPUTE,
    }
}

/// What it costs to take a queue of `family` that has been picked `picked`
/// times already: the more a family can do, the slower it tends to be, and
/// a family that is in use already costs most.
pub open spec fn spec_cost(family: QueueFamilyInfo, picked: u32) -> int {
    spec_count_ones(family.queue_flags) + (if family.has_present {
        1int
    } else {
        0int
    }) + picked * 100
}

/// What it costs to take a queue of `family`.
pub fn cost(family: &QueueFamilyInfo, picked: u32) -> (r: u64)
    ensures
        r == spec_cost(*family, picked),
{
    let ones = count_ones(family.queue_flags) as u64;
    let present: u64 = if family.has_present {
        1
    } else {
        0
    };
    ones + present + (picked as u64) * 100
}

/// How often the family with index `i` has been picked, by the counts in
/// `picked`; a family without a count has not been picked.
pub open spec fn spec_picked(picked: Seq<u32>, i: int) -> u32 {
    if 0 <= i < picked.len() {
        picked[i]
    } else {
        0
    }
}

/// Whether `i` is the family to take for `role`: it serves the role, none
/// that serves it is cheaper, and none before it is as cheap.
pub open spec fn spec_is_choice(
    families: Seq<QueueFamilyInfo>,
    picked: Seq<u32>,
    role: Role,
    i: int,
) -> bool {
    &&& 0 <= i < families.len()
    &&& i < u32::MAX
    &&& spec_serves(families[i], role)
    &&& forall|j: int|
        0 <= j < families.len() && j < u32::MAX && spec_serves(#[trigger] families[j], role)
            ==> spec_cost(families[i], spec_picked(picked, i)) <= spec_cost(
            families[j],
            spec_picked(picked, j),
        ) && (j < i ==> spec_cost(families[i], spec_picked(picked, i)) < spec_cost(
            families[j],
            spec_picked(picked, j),
        ))
}

/// Whether any family serves `role`.
pub open spec fn spec_any_serves(families: Seq<QueueFamilyInfo>, role: Role) -> bool {
    exists|j: int|
        0 <= j < families.len() && j < u32::MAX && spec_serves(#[trigger] families[j], role)
}

/// The index of the family to take for `role`: of those that serve it the
/// cheapest, and of several as cheap the first. `None` where no family
/// serves the role.
pub fn find_queue(families: &Vec<QueueFamilyInfo>, picked: &Vec<u32>, role: Role) -> (r: Option<
    u32,
>)
    ensures
        match r {
            Some(i) => spec_is_choice(families@, picked@, role, i as int),
            None => !spec_any_serves(families@, role),
        },
{
    let mut best: Option<(u32, u64)> = None;
    let mut i: usize = 0;
    while i < families.len() && i < u32::MAX as usize
        invariant
            i <= families@.len(),
            i <= u32::MAX,
            match best {
                Some((b, c)) => {
                    &&& (b as int) < i
                    &&& spec_serves(families@[b as int], role)
                    &&& c == spec_cost(families@[b as int], spec_picked(picked@, b as int))
                    &&& forall|j: int|
                        0 <= j < i && spec_serves(#[trigger] families@[j], role) ==> c <= spec_cost(
                            families@[j],
                            spec_picked(picked@, j),
                        ) && (j < b ==> c < spec_cost(families@[j], spec_picked(picked@, j)))
                },
                None => forall|j: int| 0 <= j < i ==> !spec_serves(#[trigger] families@[j], role),
            },
        decreases families@.len() - i,
    {
        let family = &families[i];
        if serves(family, role) {
            let count = if i < picked.len() {
                picked[i]
            } else {
                0
            };
            let c = cost(family, count);
            match best {
                Some((_, least)) => {
                    if c < least {
                        best = Some((i as u32, c));
                    }
                },
                None => {
                    best = Some((i as u32, c));
                },
            }
        }
        i += 1;
    }
    match best {
        Some((b, _)) => Some(b),
        None => None,
    }
}


/// The counts `picked` after the family with index `i` has been picked
/// once more.
pub open spec fn spec_bump(picked: Seq<u32>, i: int) -> Seq<u32> {
    if 0 <= i < picked.len() && picked[i] < u32::MAX {
        picked.update(i, (picked[i] + 1) as u32)
    } else {
        picked
    }
}

/// Whether `list` rises strictly: each item is greater than the one before.
pub open spec fn spec_rises(list: Seq<u32>) -> bool {
    forall|i: int, j: int| 0 <= i < j < list.len() ==> list[i] < list[j]
}

/// Whether the families `chosen` are those to take of `families`: the
/// roles are filled as chosen, and the families to create queues from are
/// those four, each once, in rising order.
pub open spec fn spec_queues_chosen(families: Seq<QueueFamilyInfo>, chosen: QueueFamilies) -> bool {
    &&& spec_roles_chosen(
        families,
        chosen.present,
        chosen.graphics,
        chosen.transfer,
        chosen.compute,
    )
    &&& spec_rises(chosen.families@)
    &&& forall|x: u32|
        chosen.families@.contains(x) <==> (x == chosen.present || x == chosen.graphics || x
            == chosen.transfer || x == chosen.compute)
}

/// Whether every role is served by some family.
pub open spec fn spec_all_served(families: Seq<QueueFamilyInfo>) -> bool {
    spec_any_serves(families, Role::Present) && spec_any_serves(families, Role::Graphics)
        && spec_any_serves(families, Role::Transfer) && spec_any_serves(families, Role::Compute)
}

/// Puts `x` into the rising list `list`, unless it is there already.
fn insert_rising(list: &mut Vec<u32>, x: u32)
    requires
        spec_rises(old(list)@),
    ensures
        spec_rises(final(list)@),
        forall|y: u32| final(list)@.contains(y) <==> (old(list)@.contains(y) || y == x),
{
    let mut i: usize = 0;
    while i < list.len() && list[i] < x
        invariant
            i <= list@.len(),
            list@ == old(list)@,
            forall|j: int| 0 <= j < i ==> list@[j] < x,
        decreases list@.len() - i,
    {
        i += 1;
    }
    if i < list.len() && list[i] == x {
        assert(list@.contains(x));
        return ;
    }
    list.insert(i, x);
    assert(list@[i as int] == x);
    assert forall|y: u32| list@.contains(y) <==> (old(list)@.contains(y) || y == x) by {
        if list@.contains(y) {
            let k = choose|k: int| 0 <= k < list@.len() && list@[k] == y;
            if k < i {
                assert(old(list)@[k] == y);
            } else if k > i {
                assert(old(list)@[k - 1] == y);
            }
        }
        if old(list)@.contains(y) {
            let k = choose|k: int| 0 <= k < old(list)@.len() && old(list)@[k] == y;
            if k < i {
                assert(list@[k] == y);
            } else {
                assert(list@[k + 1] == y);
            }
        }
    }
}

/// Counts one more pick of the family with index `i`.
fn bump(picked: &mut Vec<u32>, i: u32)
    ensures
        final(picked)@ == spec_bump(old(picked)@, i as int),
{
    let at = i as usize;
    if at < picked.len() {
        let count = picked[at];
        if count < u32::MAX {
            picked.set(at, count + 1);
        }
    }
}

/// Whether the four families are those to take of `families`: the roles
/// are filled in the order present, graphics, transfer, compute, each by
/// the choice for its role given what has been picked before it.
pub open spec fn spec_roles_chosen(
    families: Seq<QueueFamilyInfo>,
    present: u32,
    graphics: u32,
    transfer: u32,
    compute: u32,
) -> bool {
    let none = Seq::new(families.len(), |i: int| 0u32);
    let one = spec_bump(none, present as int);
    let two = spec_bump(one, graphics as int);
    let three = spec_bump(two, transfer as int);
    &&& spec_is_choice(families, none, Role::Present, present as int)
    &&& spec_is_choice(families, one, Role::Graphics, graphics as int)
    &&& spec_is_choice(families, two, Role::Transfer, transfer as int)
    &&& spec_is_choice(families, three, Role::Compute, compute as int)
}

/// As many zeros as there are families.
fn no_picks(families: &Vec<QueueFamilyInfo>) -> (r: Vec<u32>)
    ensures
        r@ == Seq::new(families@.len(), |i: int| 0u32),
{
    let mut picked: Vec<u32> = Vec::new();
    let mut n: usize = 0;
    while n < families.len()
        invariant
            n <= families@.len(),
            picked@ == Seq::new(n as nat, |i: int| 0u32),
        decreases families@.len() - n,
    {
        picked.push(0);
        assert(picked@ =~= Seq::new((n + 1) as nat, |i: int| 0u32));
        n += 1;
    }
    picked
}

/// The family for each role, in the order present, graphics, transfer,
/// compute; `None` where one of the roles is served by no family.
fn choose_roles(families: &Vec<QueueFamilyInfo>) -> (r: Option<(u32, u32, u32, u32)>)
    ensures
        match r {
            Some((present, graphics, transfer, compute)) => spec_roles_chosen(
                families@,
                present,
                graphics,
                transfer,
                compute,
            ),
            None => !spec_all_served(families@),
        },
{
    let mut picked = no_picks(families);
    let present = match find_queue(families, &picked, Role::Present) {
        Some(i) => i,
        None => {
            return None;
        },
    };
    bump(&mut picked, present);
    let graphics = match find_queue(families, &picked, Role::Graphics) {
        Some(i) => i,
        None => {
            return None;
        },
    };
    bump(&mut picked, graphics);
    let transfer = match find_queue(families, &picked, Role::Transfer) {
        Some(i) => i,
        None => {
            return None;
        },
    };
    bump(&mut picked, transfer);
    match find_queue(families, &picked, Role::Compute) {
        Some(compute) => Some((present, graphics, transfer, compute)),
        None => None,
    }
}

/// The four numbers, each once, in rising order.
fn rising(a: u32, b: u32, c: u32, d: u32) -> (r: Vec<u32>)
    ensures
        spec_rises(r@),
        forall|x: u32| r@.contains(x) <==> (x == a || x == b || x == c || x == d),
{
    let mut list: Vec<u32> = Vec::new();
    insert_rising(&mut list, a);
    insert_rising(&mut list, b);
    insert_rising(&mut list, c);
    insert_rising(&mut list, d);
    list
}

/// The queue families to use of those of a device, or `None` where one of
/// the roles is served by no family of the device.
pub fn find_queues(families: &Vec<QueueFamilyInfo>) -> (r: Option<QueueFamilies>)
    ensures
        match r {
            Some(chosen) => spec_queues_chosen(families@, chosen),
            None => !spec_all_served(families@),
        },
{
    match choose_roles(families) {
        Some((present, graphics, transfer, compute)) => {
            let list = rising(present, graphics, transfer, compute);
            Some(QueueFamilies { present, graphics, transfer, compute, families: list })
        },
        None => None,
    }
}

/// Whether the device `gpu` can run the renderer: its interface is new
/// enough, it has the extensions, and the surface can be presented to.
pub open spec fn spec_capable(gpu: GpuInfo) -> bool {
    &&& gpu.api_version >= API_VERSION_1_3
    &&& spec_has_extensions(gpu.extensions)
    &&& (gpu.surface_formats matches Some(f) && f != 0)
    &&& (gpu.surface_present_modes matches Some(m) && m != 0)
}

/// Whether the device `gpu` is suitable: it can run the renderer and every
/// role is served by one of its queue families.
pub open spec fn spec_suitable(gpu: GpuInfo) -> bool {
    spec_capable(gpu) && spec_all_served(gpu.queue_families@)
}

/// The queue families to use on the device `gpu`, or `None` where the
/// device is not suitable.
pub fn is_suitable(gpu: &GpuInfo) -> (r: Option<QueueFamilies>)
    ensures
        match r {
            Some(chosen) => spec_suitable(*gpu) && spec_queues_chosen(gpu.queue_families@, chosen),
            None => !spec_suitable(*gpu),
        },
{
    if gpu.api_version < API_VERSION_1_3 {
        return None;
    }
    if !has_extensions(&gpu.extensions) {
        return None;
    }
    if !has_surface_support(gpu.surface_formats, gpu.surface_present_modes) {
        return None;
    }
    let chosen = find_queues(&gpu.queue_families);
    proof {
        if chosen is Some {
            let q = chosen->Some_0;
            assert(spec_any_serves(gpu.queue_families@, Role::Present)) by {
                assert(spec_serves(gpu.queue_families@[q.present as int], Role::Present));
            }
            assert(spec_any_serves(gpu.queue_families@, Role::Graphics)) by {
                assert(spec_serves(gpu.queue_families@[q.graphics as int], Role::Graphics));
            }
            assert(spec_any_serves(gpu.queue_families@, Role::Transfer)) by {
                assert(spec_serves(gpu.queue_families@[q.transfer as int], Role::Transfer));
            }
            assert(spec_any_serves(gpu.queue_families@, Role::Compute)) by {
                assert(spec_serves(gpu.queue_families@[q.compute as int], Role::Compute));
            }
        }
    }
    chosen
}

/// Whether the device with index `i` is the one to pick of `gpus`: it is
/// suitable, no suitable device is liked more, and none after it is liked
/// as much.
pub open spec fn spec_is_pick(gpus: Seq<GpuInfo>, i: int) -> bool {
    &&& 0 <= i < gpus.len()
    &&& spec_suitable(gpus[i])
    &&& forall|j: int|
        0 <= j < gpus.len() && spec_suitable(#[trigger] gpus[j]) ==> spec_score(
            gpus[j].device_type,
        ) <= spec_score(gpus[i].device_type) && (j > i ==> spec_score(gpus[j].device_type)
            < spec_score(gpus[i].device_type))
}

/// Picks the device to render on: of the suitable ones the one that is
/// liked most, and of several liked as much the last. The result is its
/// index with the queue families to use on it. It fails where no device
/// is suitable.
pub fn pick_gpu(gpus: &Vec<GpuInfo>) -> (r: Result<(usize, QueueFamilies), Error>)
    ensures
        match r {
            Ok((i, chosen)) => spec_is_pick(gpus@, i as int) && spec_queues_chosen(
                gpus@[i as int].queue_families@,
                chosen,
            ),
            Err(e) => e == Error::NoSuitableGpu && forall|j: int|
                0 <= j < gpus@.len() ==> !spec_suitable(#[trigger] gpus@[j]),
        },
{
    let mut best: Option<(usize, QueueFamilies)> = None;
    let mut i: usize = 0;
    while i < gpus.len()
        invariant
            i <= gpus@.len(),
            match best {
                Some((b, chosen)) => {
                    &&& b < i
                    &&& spec_suitable(gpus@[b as int])
                    &&& spec_queues_chosen(gpus@[b as int].queue_families@, chosen)
                    &&& forall|j: int|
                        0 <= j < i && spec_suitable(#[trigger] gpus@[j]) ==> spec_score(
                            gpus@[j].device_type,
                        ) <= spec_score(gpus@[b as int].device_type) && (j > b ==> spec_score(
                            gpus@[j].device_type,
                        ) < spec_score(gpus@[b as int].device_type))
                },
                None => forall|j: int| 0 <= j < i ==> !spec_suitable(#[trigger] gpus@[j]),
            },
        decreases gpus@.len() - i,
    {
        match is_suitable(&gpus[i]) {
            Some(chosen) => {
                let better = match &best {
                    Some((b, _)) => score(gpus[i].device_type) >= score(gpus[*b].device_type),
                    None => true,
                };
                if better {
                    best = Some((i, chosen));
                }
            },
            None => {},
        }
        i += 1;
    }
    match best {
        Some(pick) => Ok(pick),
        None => Err(Error::NoSuitableGpu),
    }
}

} // verus!
