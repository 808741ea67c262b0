use crate::level::AlertLevel;
use crate::time::Timestamp;
use std::collections::HashMap;
use vstd::prelude::*;

verus! {

broadcast use vstd::std_specs::hash::group_hash_axioms;

/// A place for which weather is watched, with its latest weather report.
#[derive(Debug)]
pub struct Location {
    pub location_id: i32,
    pub name: String,
    pub weather_description: String,
    pub cloud_cover: i16,
    pub updated_at: Timestamp,
}

/// A place as a search for places lists it.
#[derive(Debug)]
pub struct LocationName {
    pub location_id: i32,
    pub name: String,
}

/// A place that some subscriber follows, with the age of its weather report.
#[derive(Clone, Copy, Debug, PartialEq, Eq, Structural)]
pub struct LocationUpdatedAt {
    pub location_id: i32,
    pub updated_at: Timestamp,
}

/// What a new subscriber sends in to register.
#[derive(Debug)]
pub struct RegisterUser {
    pub email: String,
    pub alert_threshold: AlertLevel,
    pub locations: Vec<i32>,
}

/// One row of the join of subscribers with the places they follow: the
/// subscriber's own columns, then those of one place.
#[derive(Debug)]
pub struct UserWithLocationModel {
    pub user_id: u128,
    pub email: String,
    pub alert_threshold: AlertLevel,
    pub last_alerted_at: Option<Timestamp>,
    pub location_id: i32,
    pub name: String,
    pub weather_description: String,
    pub cloud_cover: i16,
    pub updated_at: Timestamp,
}

/// A subscriber with every place they follow.
#[derive(Debug)]
pub struct UserWithLocations {
    pub user_id: u128,
    pub email: String,
    pub alert_threshold: AlertLevel,
    pub last_alerted_at: Option<Timestamp>,
    pub locations: Vec<Location>,
}

/// The place that a row of the join describes.
pub open spec fn location_of(row: UserWithLocationModel) -> Location {
    Location {
        location_id: row.location_id,
        name: row.name,
        weather_description: row.weather_description,
        cloud_cover: row.cloud_cover,
        updated_at: row.updated_at,
    }
}

/// The places of the rows that belong to the subscriber `user_id`, in the
/// order of the rows.
pub open spec fn locations_of(rows: Seq<UserWithLocationModel>, user_id: u128) -> Seq<Location>
    decreases rows.len(),
{
    if rows.len() == 0 {
        Seq::empty()
    } else if rows.last().user_id == user_id {
        locations_of(rows.drop_last(), user_id).push(location_of(rows.last()))
    } else {
        locations_of(rows.drop_last(), user_id)
    }
}

/// The index of the first row that belongs to the subscriber `user_id`, or
/// the number of rows where none does.
pub open spec fn first_row_of(rows: Seq<UserWithLocationModel>, user_id: u128) -> int
    decreases rows.len(),
{
    if rows.len() == 0 {
        0
    } else if first_row_of(rows.drop_last(), user_id) < rows.len() - 1 {
        first_row_of(rows.drop_last(), user_id)
    } else if rows.last().user_id == user_id {
        rows.len() - 1
    } else {
        rows.len() as int
    }
}

/// Whether `user` is the subscriber `user_id` as `rows` describe them: the
/// subscriber's columns as the first row of `user_id` has them, and the
/// places of all rows of `user_id`, in the order of the rows.
pub open spec fn describes(
    user: UserWithLocations,
    rows: Seq<UserWithLocationModel>,
    user_id: u128,
) -> bool {
    let first = first_row_of(rows, user_id);
    &&& 0 <= first < rows.len()
    &&& user.user_id == user_id
    &&& user.email == rows[first].email
    &&& user.alert_threshold == rows[first].alert_threshold
    &&& user.last_alerted_at == rows[first].last_alerted_at
    &&& user.locations@ == locations_of(rows, user_id)
}

/// The first row of a subscriber is a row of that subscriber, and no row
/// before it is.
pub proof fn first_row_is_first(rows: Seq<UserWithLocationModel>, user_id: u128)
    ensures
        0 <= first_row_of(rows, user_id) <= rows.len(),
        first_row_of(rows, user_id) < rows.len() ==> rows[first_row_of(rows, user_id)].user_id
            == user_id,
        forall|k: int| 0 <= k < first_row_of(rows, user_id) ==> rows[k].user_id != user_id,
    decreases rows.len(),
{
    if rows.len() > 0 {
        let shorter = rows.drop_last();
        first_row_is_first(shorter, user_id);
        assert forall|k: int| 0 <= k < first_row_of(rows, user_id) implies rows[k].user_id
            != user_id by {
            if k < shorter.len() {
                assert(shorter[k] == rows[k]);
            }
        }
    }
}

/// A subscriber without a row has no first row and no place.
pub proof fn absent_user_has_no_rows(rows: Seq<UserWithLocationModel>, user_id: u128)
    requires
        forall|k: int| 0 <= k < rows.len() ==> rows[k].user_id != user_id,
    ensures
        first_row_of(rows, user_id) == rows.len(),
        locations_of(rows, user_id) == Seq::<Location>::empty(),
    decreases rows.len(),
{
    if rows.len() > 0 {
        absent_user_has_no_rows(rows.drop_last(), user_id);
    }
}

/// Whether `found` are the subscribers that `rows` describe: each subscriber
/// of a row stands in `found` once, as the rows describe them, and the
/// subscribers stand in the order in which their first rows come.
pub open spec fn groups(found: Seq<UserWithLocations>, rows: Seq<UserWithLocationModel>) -> bool {
    &&& forall|a: int, b: int| 0 <= a < b < found.len() ==> found[a].user_id != found[b].user_id
    &&& forall|a: int| 0 <= a < found.len() ==> describes(#[trigger] found[a], rows, found[a].user_id)
    &&& forall|k: int|
        0 <= k < rows.len() ==> exists|a: int|
            0 <= a < found.len() && found[a].user_id == (#[trigger] rows[k]).user_id
    &&& forall|a: int, b: int|
        0 <= a < b < found.len() ==> first_row_of(rows, found[a].user_id) < first_row_of(
            rows,
            found[b].user_id,
        )
}

/// Whether `places` tells where in `found` each subscriber stands, by id.
pub open spec fn indexes(places: Map<u128, usize>, found: Seq<UserWithLocations>) -> bool {
    &&& forall|a: int|
        0 <= a < found.len() ==> places.contains_key((#[trigger] found[a]).user_id)
            && places[found[a].user_id] == a
    &&& forall|id: u128| #[trigger]
        places.contains_key(id) ==> places[id] < found.len() && found[places[id] as int].user_id
            == id
}

/// An index holds of every list of subscribers with the same ids at the same
/// places.
proof fn index_holds_of_the_same_ids(
    places: Map<u128, usize>,
    before: Seq<UserWithLocations>,
    after: Seq<UserWithLocations>,
)
    requires
        indexes(places, before),
        after.len() == before.len(),
        forall|a: int| 0 <= a < before.len() ==> (#[trigger] after[a]).user_id == before[a].user_id,
    ensures
        indexes(places, after),
{
    assert forall|a: int| 0 <= a < after.len() implies places.contains_key(
        (#[trigger] after[a]).user_id,
    ) && places[after[a].user_id] == a by {
        assert(before[a].user_id == after[a].user_id);
    }
    assert forall|id: u128| #[trigger] places.contains_key(id) implies places[id] < after.len()
        && after[places[id] as int].user_id == id by {
        assert(after[places[id] as int].user_id == before[places[id] as int].user_id);
    }
}

/// A further row of a subscriber who is grouped already adds its place to
/// that subscriber, and changes nothing else.
proof fn grouping_grows_by_a_place(
    before: Seq<UserWithLocations>,
    after: Seq<UserWithLocations>,
    rows: Seq<UserWithLocationModel>,
    row: UserWithLocationModel,
    at: int,
)
    requires
        groups(before, rows),
        0 <= at < before.len(),
        before[at].user_id == row.user_id,
        after.len() == before.len(),
        forall|a: int| 0 <= a < before.len() && a != at ==> after[a] == before[a],
        after[at].user_id == before[at].user_id,
        after[at].email == before[at].email,
        after[at].alert_threshold == before[at].alert_threshold,
        after[at].last_alerted_at == before[at].last_alerted_at,
        after[at].locations@ == before[at].locations@.push(location_of(row)),
    ensures
        groups(after, rows.push(row)),
        forall|a: int| 0 <= a < before.len() ==> (#[trigger] after[a]).user_id == before[a].user_id,
{
    let longer = rows.push(row);
    assert(longer.drop_last() == rows);
    assert(longer.last() == row);
    assert forall|a: int| 0 <= a < before.len() implies (#[trigger] after[a]).user_id
        == before[a].user_id by {}
    assert forall|a: int| 0 <= a < after.len() implies describes(
        #[trigger] after[a],
        longer,
        after[a].user_id,
    ) by {
        assert(describes(before[a], rows, before[a].user_id));
        assert(longer[first_row_of(rows, before[a].user_id)] == rows[first_row_of(
            rows,
            before[a].user_id,
        )]);
    }
    assert forall|k: int| 0 <= k < longer.len() implies exists|a: int|
        0 <= a < after.len() && after[a].user_id == (#[trigger] longer[k]).user_id by {
        if k < rows.len() {
            assert(longer[k] == rows[k]);
            let a = choose|a: int| 0 <= a < before.len() && before[a].user_id == rows[k].user_id;
            assert(after[a].user_id == longer[k].user_id);
        } else {
            assert(after[at].user_id == longer[k].user_id);
        }
    }
    assert forall|a: int, b: int| 0 <= a < b < after.len() implies first_row_of(
        longer,
        after[a].user_id,
    ) < first_row_of(longer, after[b].user_id) by {
        assert(describes(before[a], rows, before[a].user_id));
        assert(describes(before[b], rows, before[b].user_id));
        assert(after[a].user_id == before[a].user_id);
        assert(after[b].user_id == before[b].user_id);
    }
    assert forall|a: int, b: int| 0 <= a < b < after.len() implies after[a].user_id
        != after[b].user_id by {
        assert(after[a].user_id == before[a].user_id);
        assert(after[b].user_id == before[b].user_id);
    }
}

/// The first row of a subscriber who is not grouped yet adds that subscriber
/// behind the others, with the one place of the row.
proof fn grouping_grows_by_a_user(
    before: Seq<UserWithLocations>,
    after: Seq<UserWithLocations>,
    rows: Seq<UserWithLocationModel>,
    row: UserWithLocationModel,
)
    requires
        groups(before, rows),
        forall|a: int| 0 <= a < before.len() ==> (#[trigger] before[a]).user_id != row.user_id,
        after.len() == before.len() + 1,
        forall|a: int| 0 <= a < before.len() ==> after[a] == before[a],
        after[before.len() as int].user_id == row.user_id,
        after[before.len() as int].email == row.email,
        after[before.len() as int].alert_threshold == row.alert_threshold,
        after[before.len() as int].last_alerted_at == row.last_alerted_at,
        after[before.len() as int].locations@ == seq![location_of(row)],
    ensures
        groups(after, rows.push(row)),
{
    let longer = rows.push(row);
    assert(longer.drop_last() == rows);
    assert(longer.last() == row);
    assert forall|k: int| 0 <= k < rows.len() implies rows[k].user_id != row.user_id by {
        let a = choose|a: int| 0 <= a < before.len() && before[a].user_id == rows[k].user_id;
        assert(before[a].user_id != row.user_id);
    }
    absent_user_has_no_rows(rows, row.user_id);
    assert forall|a: int| 0 <= a < after.len() implies describes(
        #[trigger] after[a],
        longer,
        after[a].user_id,
    ) by {
        if a < before.len() {
            assert(describes(before[a], rows, before[a].user_id));
            assert(longer[first_row_of(rows, before[a].user_id)] == rows[first_row_of(
                rows,
                before[a].user_id,
            )]);
        } else {
            assert(after[a].locations@ =~= locations_of(longer, row.user_id));
        }
    }
    assert forall|k: int| 0 <= k < longer.len() implies exists|a: int|
        0 <= a < after.len() && after[a].user_id == (#[trigger] longer[k]).user_id by {
        if k < rows.len() {
            assert(longer[k] == rows[k]);
            let a = choose|a: int| 0 <= a < before.len() && before[a].user_id == rows[k].user_id;
            assert(after[a].user_id == longer[k].user_id);
        } else {
            assert(after[before.len() as int].user_id == longer[k].user_id);
        }
    }
    assert forall|a: int, b: int| 0 <= a < b < after.len() implies first_row_of(
        longer,
        after[a].user_id,
    ) < first_row_of(longer, after[b].user_id) by {
        assert(describes(before[a], rows, before[a].user_id));
        if b < before.len() {
            assert(describes(before[b], rows, before[b].user_id));
        }
    }
    assert forall|a: int, b: int| 0 <= a < b < after.len() implies after[a].user_id
        != after[b].user_id by {
        if b == before.len() {
            assert(before[a].user_id != row.user_id);
        }
    }
}

fn location_from_row(row: &UserWithLocationModel) -> (location: Location)
    ensures
        location == location_of(*row),
{
    Location {
        location_id: row.location_id,
        name: row.name.clone(),
        weather_description: row.weather_description.clone(),
        cloud_cover: row.cloud_cover,
        updated_at: row.updated_at,
    }
}

impl UserWithLocations {
    /// The subscriber that rows of one subscriber describe: the subscriber's
    /// columns are read from the first row, and every row gives one place.
    pub fn one_from_rows(user_rows: Vec<UserWithLocationModel>) -> (user: UserWithLocations)
        requires
            user_rows@.len() > 0,
        ensures
            user.user_id == user_rows@[0].user_id,
            user.email == user_rows@[0].email,
            user.alert_threshold == user_rows@[0].alert_threshold,
            user.last_alerted_at == user_rows@[0].last_alerted_at,
            user.locations@.len() == user_rows@.len(),
            forall|k: int|
                0 <= k < user_rows@.len() ==> user.locations@[k] == location_of(user_rows@[k]),
    {
        let mut locations: Vec<Location> = Vec::new();
        let mut i: usize = 0;
        while i < user_rows.len()
            invariant
                0 <= i <= user_rows@.len(),
                locations@.len() == i,
                forall|k: int| 0 <= k < i ==> locations@[k] == location_of(user_rows@[k]),
            decreases user_rows@.len() - i,
        {
            locations.push(location_from_row(&user_rows[i]));
            i += 1;
        }
        let row = &user_rows[0];
        UserWithLocations {
            user_id: row.user_id,
            email: row.email.clone(),
            alert_threshold: row.alert_threshold,
            last_alerted_at: row.last_alerted_at,
            locations,
        }
    }

    /// The subscribers that the rows describe, each once, in the order in
    /// which their first rows come.
    pub fn many_from_rows(users: Vec<UserWithLocationModel>) -> (found: Vec<UserWithLocations>)
        ensures
            groups(found@, users@),
    {
        let mut found: Vec<UserWithLocations> = Vec::new();
        // Where in `found` each subscriber stands, by id.
        let mut places: HashMap<u128, usize> = HashMap::new();
        let mut i: usize = 0;
        while i < users.len()
            invariant
                0 <= i <= users@.len(),
                indexes(places@, found@),
                groups(found@, users@.take(i as int)),
            decreases users@.len() - i,
        {
            let row = &users[i];
            let ghost before = users@.take(i as int);
            let ghost earlier = found@;
            proof {
                assert(users@.take(i + 1) == before.push(*row));
            }
            let at: usize = match places.get(&row.user_id) {
                Some(place) => *place,
                None => found.len(),
            };
            if at < found.len() {
                found[at].locations.push(location_from_row(row));
                proof {
                    grouping_grows_by_a_place(earlier, found@, before, *row, at as int);
                    index_holds_of_the_same_ids(places@, earlier, found@);
                }
            } else {
                places.insert(row.user_id, found.len());
                found.push(
                    UserWithLocations {
                        user_id: row.user_id,
                        email: row.email.clone(),
                        alert_threshold: row.alert_threshold,
                        last_alerted_at: row.last_alerted_at,
                        locations: vec![location_from_row(row)],
                    },
                );
                proof {
                    assert(found@[earlier.len() as int].locations@ =~= seq![location_of(*row)]);
                    grouping_grows_by_a_user(earlier, found@, before, *row);
                }
            }
            i += 1;
        }
        proof {
            assert(users@.take(i as int) == users@);
        }
        found
    }
}

} // verus!
