use vstd::prelude::*;
use crate::astronomical::System;
use crate::entity::EntityArray;
use crate::namegen::{drawable, Exhausted, NameGen};
use crate::point::Point;
use crate::sampler::sample_locations;
use rand::distributions::Normal;
use crate::world::World;

verus! {

/// The names of the given systems, in order.
pub open spec fn names_of(systems: Seq<System>) -> Seq<Seq<char>> {
    systems.map_values(|s: System| s.name@)
}

/// The locations of the given systems, in order.
pub open spec fn locations_of(systems: Seq<System>) -> Seq<Point> {
    systems.map_values(|s: System| s.location)
}

/// `systems` holds one system per location, in the order of `locations`.
pub open spec fn laid_out(systems: Seq<System>, locations: Seq<Point>) -> bool {
    locations_of(systems) == locations
}

/// Builds one system per location, in order, each with a fresh name from
/// `names`. On a name exhaustion the whole batch is dropped and the error is
/// passed on; names drawn before it stay recorded in `names`.
pub fn name_systems(locations: &Vec<Point>, names: &mut NameGen) -> (r: Result<
    EntityArray<System>,
    Exhausted,
>)
    requires
        old(names).wf(),
        locations@.len() > 0 ==> old(names).corpus().len() > 0,
    ensures
        final(names).wf(),
        final(names).corpus() == old(names).corpus(),
        final(names).emitted().len() >= old(names).emitted().len(),
        final(names).emitted().subrange(0, old(names).emitted().len() as int)
            == old(names).emitted(),
        locations@.len() == 0 ==> r is Ok && final(names).emitted() == old(names).emitted(),
        old(names).emitted().len() == 0 && locations@.len() == 1 ==> r is Ok,
        r is Err ==> final(names).emitted().len() > 0,
        match r {
            Ok(systems) => {
                &&& laid_out(systems@, locations@)
                &&& names_of(systems@).no_duplicates()
                &&& forall|i: int|
                    0 <= i < systems@.len() ==> drawable(
                        old(names).corpus(),
                        #[trigger] systems@[i].name@,
                    )
                &&& forall|i: int|
                    0 <= i < systems@.len() ==> !old(names).emitted().contains(
                        #[trigger] systems@[i].name@,
                    )
                &&& final(names).emitted() == old(names).emitted() + names_of(systems@)
            },
            Err(_) => final(names).emitted().len() < old(names).emitted().len()
                + locations@.len(),
        },
{
    let mut systems: EntityArray<System> = EntityArray::new();
    let mut i: usize = 0;
    assert(locations_of(systems@) =~= locations@.subrange(0, 0));
    assert(names.emitted() =~= old(names).emitted() + names_of(systems@));
    while i < locations.len()
        invariant
            i <= locations@.len(),
            names.wf(),
            names.corpus() == old(names).corpus(),
            locations@.len() > 0 ==> names.corpus().len() > 0,
            systems@.len() == i,
            laid_out(systems@, locations@.subrange(0, i as int)),
            names.emitted() == old(names).emitted() + names_of(systems@),
            forall|k: int|
                0 <= k < systems@.len() ==> drawable(old(names).corpus(), #[trigger] systems@[k].name@),
        decreases locations@.len() - i,
    {
        let ghost before = names.emitted();
        match names.generate() {
            Ok(name) => {
                let system = System { location: locations[i], name };
                proof {
                    assert(names_of(systems@.push(system)) =~= names_of(systems@).push(name@));
                    assert(locations_of(systems@.push(system)) =~= locations@.subrange(
                        0,
                        i + 1,
                    ));
                }
                systems.insert(system);
            },
            Err(e) => {
                return Err(e);
            },
        }
        i += 1;
    }
    proof {
        assert(locations@.subrange(0, i as int) =~= locations@);
        lemma_run_names_unique(old(names).emitted(), names.emitted(), systems@);
    }
    Ok(systems)
}

/// Populates the world's systems: seeds a stream with `map_seed`, draws
/// `number_of_systems` locations from it with distribution `spread` on both
/// axes, and makes one system per location, in the order drawn, each named
/// by `names`. Returns the number of systems made. When names run out the
/// run is aborted and the world is left as it was.
pub fn generate(
    map_seed: u32,
    spread: &Normal,
    number_of_systems: u64,
    names: &mut NameGen,
    world: &mut World,
) -> (r: Result<usize, Exhausted>)
    requires
        old(names).wf(),
        number_of_systems <= usize::MAX,
        number_of_systems > 0 ==> old(names).corpus().len() > 0,
    ensures
        final(names).wf(),
        final(names).corpus() == old(names).corpus(),
        number_of_systems == 0 ==> r is Ok && final(names).emitted() == old(names).emitted(),
        old(names).emitted().len() == 0 && number_of_systems == 1 ==> r is Ok,
        r is Err ==> final(names).emitted().len() > 0,
        match r {
            Ok(n) => {
                &&& n == number_of_systems
                &&& final(world).systems@.len() == n
                &&& names_of(final(world).systems@).no_duplicates()
                &&& forall|i: int|
                    0 <= i < final(world).systems@.len() ==> drawable(
                        old(names).corpus(),
                        #[trigger] final(world).systems@[i].name@,
                    )
                &&& final(names).emitted() == old(names).emitted() + names_of(
                    final(world).systems@,
                )
            },
            Err(_) => final(world).systems@ == old(world).systems@,
        },
{
    let locations = sample_locations(map_seed, spread, number_of_systems);
    match name_systems(&locations, names) {
        Ok(systems) => {
            let n = systems.len();
            world.systems = systems;
            Ok(n)
        },
        Err(e) => Err(e),
    }
}

/// Two runs over the same locations lay the systems out identically: system
/// `i` of either run lies at location `i`, whatever names were drawn.
pub proof fn lemma_layout_deterministic(
    first: Seq<System>,
    second: Seq<System>,
    locations: Seq<Point>,
)
    requires
        laid_out(first, locations),
        laid_out(second, locations),
    ensures
        first.len() == second.len(),
        forall|i: int| 0 <= i < first.len() ==> #[trigger] first[i].location == second[i].location,
{
    assert(locations_of(first).len() == first.len());
    assert(locations_of(second).len() == second.len());
    assert forall|i: int| 0 <= i < first.len() implies #[trigger] first[i].location
        == second[i].location by {
        assert(locations_of(first)[i] == locations_of(second)[i]);
    }
}

/// Within one run no two systems share a name, and none repeats a name the
/// generator had handed out before.
pub proof fn lemma_run_names_unique(before: Seq<Seq<char>>, after: Seq<Seq<char>>, systems: Seq<System>)
    requires
        after.no_duplicates(),
        after == before + names_of(systems),
    ensures
        names_of(systems).no_duplicates(),
        forall|i: int| 0 <= i < systems.len() ==> !before.contains(#[trigger] systems[i].name@),
{
    let found = names_of(systems);
    assert forall|a: int, b: int|
        0 <= a < found.len() && 0 <= b < found.len() && a != b implies found[a] != found[b] by {
        assert(after[before.len() + a] == found[a]);
        assert(after[before.len() + b] == found[b]);
    }
    assert forall|k: int| 0 <= k < systems.len() implies !before.contains(
        #[trigger] systems[k].name@,
    ) by {
        assert(after[before.len() + k] == found[k]);
        if before.contains(systems[k].name@) {
            let j = choose|j: int| 0 <= j < before.len() && before[j] == systems[k].name@;
            assert(after[j] == before[j]);
        }
    }
}

} // verus!
