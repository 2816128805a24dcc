use vstd::prelude::*;

verus! {

/// A persisted user record, as decoded from one row of the users table.
#[derive(Debug)]
pub struct User {
    pub id: i64,
    pub first_name: String,
    pub last_name: String,
    pub email: String,
}

/// The fields a caller may supply when creating or updating a user record:
/// everything but the store-assigned identifier.
#[derive(Debug)]
pub struct UserDTO {
    pub first_name: String,
    pub last_name: String,
    pub email: String,
}

/// The mathematical image of one row of the users table.
pub ghost struct UserRow {
    pub id: int,
    pub first_name: Seq<char>,
    pub last_name: Seq<char>,
    pub email: Seq<char>,
}

impl View for User {
    type V = UserRow;

    open spec fn view(&self) -> UserRow {
        UserRow {
            id: self.id as int,
            first_name: self.first_name@,
            last_name: self.last_name@,
            email: self.email@,
        }
    }
}

/// Some row of `rows` carries the identifier `id`.
pub open spec fn has_user(rows: Seq<UserRow>, id: int) -> bool {
    exists|i: int| 0 <= i < rows.len() && rows[i].id == id
}

/// The row of `rows` carrying `id`; meaningful when `has_user(rows, id)`
/// holds and identifiers are distinct.
pub open spec fn user_at(rows: Seq<UserRow>, id: int) -> UserRow {
    rows[choose|i: int| 0 <= i < rows.len() && rows[i].id == id]
}

/// Every identifier in `rows` lies strictly below `bound`.
pub open spec fn user_ids_below(rows: Seq<UserRow>, bound: int) -> bool {
    forall|i: int| 0 <= i < rows.len() ==> rows[i].id < bound
}

/// Identifiers grow strictly along `rows`; rows therefore stand in the order
/// the store assigned their identifiers, and no identifier repeats.
pub open spec fn user_ids_increasing(rows: Seq<UserRow>) -> bool {
    forall|i: int, j: int| 0 <= i < j < rows.len() ==> rows[i].id < rows[j].id
}

/// How many rows of `rows` carry the identifier `id`.
pub open spec fn user_count(rows: Seq<UserRow>, id: int) -> int
    decreases rows.len(),
{
    if rows.len() == 0 {
        0
    } else {
        user_count(rows.drop_last(), id) + if rows.last().id == id {
            1int
        } else {
            0int
        }
    }
}

/// `row` with its mutable fields replaced and its identifier kept.
pub open spec fn with_profile(row: UserRow, first_name: Seq<char>, last_name: Seq<char>, email: Seq<char>) -> UserRow {
    UserRow { id: row.id, first_name: first_name, last_name: last_name, email: email }
}

/// `rows` with the mutable fields of every row carrying `id` replaced.
pub open spec fn reprofile_rows(
    rows: Seq<UserRow>,
    id: int,
    first_name: Seq<char>,
    last_name: Seq<char>,
    email: Seq<char>,
) -> Seq<UserRow> {
    Seq::new(
        rows.len(),
        |i: int| if rows[i].id == id { with_profile(rows[i], first_name, last_name, email) } else { rows[i] },
    )
}

/// `rows` without the rows carrying `id`, in unchanged order.
pub open spec fn remove_user(rows: Seq<UserRow>, id: int) -> Seq<UserRow>
    decreases rows.len(),
{
    if rows.len() == 0 {
        Seq::empty()
    } else if rows.last().id == id {
        remove_user(rows.drop_last(), id)
    } else {
        remove_user(rows.drop_last(), id).push(rows.last())
    }
}

/// An identifier absent from `rows` is absent from its last row and from the
/// rows before it.
pub proof fn lemma_user_absent_prefix(rows: Seq<UserRow>, id: int)
    requires
        !has_user(rows, id),
        rows.len() > 0,
    ensures
        rows.last().id != id,
        !has_user(rows.drop_last(), id),
{
    assert(rows[rows.len() - 1].id != id);
    if has_user(rows.drop_last(), id) {
        let i = choose|i: int| 0 <= i < rows.drop_last().len() && rows.drop_last()[i].id == id;
        assert(rows.drop_last()[i] == rows[i]);
        assert(has_user(rows, id));
    }
}

/// No row carries an absent identifier.
pub proof fn lemma_user_count_absent(rows: Seq<UserRow>, id: int)
    requires
        !has_user(rows, id),
    ensures
        user_count(rows, id) == 0,
    decreases rows.len(),
{
    if rows.len() > 0 {
        lemma_user_absent_prefix(rows, id);
        lemma_user_count_absent(rows.drop_last(), id);
    }
}

/// With strictly growing identifiers, a present identifier is carried by
/// exactly one row.
pub proof fn lemma_user_count_unique(rows: Seq<UserRow>, id: int)
    requires
        user_ids_increasing(rows),
        has_user(rows, id),
    ensures
        user_count(rows, id) == 1,
    decreases rows.len(),
{
    let i = choose|i: int| 0 <= i < rows.len() && rows[i].id == id;
    if i == rows.len() - 1 {
        assert(rows.last().id == id);
        assert(!has_user(rows.drop_last(), id)) by {
            if has_user(rows.drop_last(), id) {
                let k = choose|k: int|
                    0 <= k < rows.drop_last().len() && rows.drop_last()[k].id == id;
                assert(rows.drop_last()[k] == rows[k]);
                assert(rows[k].id < rows[i].id);
            }
        };
        lemma_user_count_absent(rows.drop_last(), id);
    } else {
        assert(rows.last().id != id) by {
            assert(rows[i].id < rows[rows.len() - 1].id);
        };
        assert(user_ids_increasing(rows.drop_last())) by {
            assert forall|a: int, b: int|
                0 <= a < b < rows.drop_last().len() implies rows.drop_last()[a].id
                < rows.drop_last()[b].id by {
                assert(rows.drop_last()[a] == rows[a]);
                assert(rows.drop_last()[b] == rows[b]);
            };
        };
        assert(has_user(rows.drop_last(), id)) by {
            assert(rows.drop_last()[i] == rows[i]);
        };
        lemma_user_count_unique(rows.drop_last(), id);
    }
}

/// With strictly growing identifiers, any row carrying `id` is the row
/// `user_at` selects.
pub proof fn lemma_user_at_unique(rows: Seq<UserRow>, id: int, i: int)
    requires
        user_ids_increasing(rows),
        0 <= i < rows.len(),
        rows[i].id == id,
    ensures
        has_user(rows, id),
        user_at(rows, id) == rows[i],
{
    assert(has_user(rows, id));
    assert forall|c: int| 0 <= c < rows.len() && (#[trigger] rows[c]).id == id implies c == i by {
        if c < i {
            assert(rows[c].id < rows[i].id);
        }
        if c > i {
            assert(rows[i].id < rows[c].id);
        }
    };
    assert(user_at(rows, id) == rows[i]);
}

/// Replacing the mutable fields at an absent identifier changes nothing.
pub proof fn lemma_reprofile_absent(
    rows: Seq<UserRow>,
    id: int,
    first_name: Seq<char>,
    last_name: Seq<char>,
    email: Seq<char>,
)
    requires
        !has_user(rows, id),
    ensures
        reprofile_rows(rows, id, first_name, last_name, email) == rows,
{
    assert forall|i: int|
        0 <= i < rows.len() implies reprofile_rows(rows, id, first_name, last_name, email)[i]
        == rows[i] by {
        assert(rows[i].id != id);
    };
    assert(reprofile_rows(rows, id, first_name, last_name, email) =~= rows);
}

/// Removing an absent identifier changes nothing.
pub proof fn lemma_remove_user_noop(rows: Seq<UserRow>, id: int)
    requires
        !has_user(rows, id),
    ensures
        remove_user(rows, id) == rows,
    decreases rows.len(),
{
    if rows.len() == 0 {
        assert(remove_user(rows, id) =~= rows);
    } else {
        lemma_user_absent_prefix(rows, id);
        lemma_remove_user_noop(rows.drop_last(), id);
        assert(rows.drop_last().push(rows.last()) =~= rows);
    }
}

/// Removal keeps every identifier bound that held before.
pub proof fn lemma_remove_user_below(rows: Seq<UserRow>, id: int, bound: int)
    requires
        user_ids_below(rows, bound),
    ensures
        user_ids_below(remove_user(rows, id), bound),
    decreases rows.len(),
{
    if rows.len() > 0 {
        assert(user_ids_below(rows.drop_last(), bound)) by {
            assert forall|i: int|
                0 <= i < rows.drop_last().len() implies (#[trigger] rows.drop_last()[i]).id
                < bound by {
                assert(rows.drop_last()[i] == rows[i]);
            };
        };
        lemma_remove_user_below(rows.drop_last(), id, bound);
        if rows.last().id != id {
            let r0 = remove_user(rows.drop_last(), id);
            let out = r0.push(rows.last());
            assert forall|i: int| 0 <= i < out.len() implies (#[trigger] out[i]).id < bound by {
                if i < out.len() - 1 {
                    assert(out[i] == r0[i]);
                } else {
                    assert(out[i] == rows.last());
                    assert(rows[rows.len() - 1].id < bound);
                }
            };
        }
    }
}

/// Removal keeps identifiers strictly growing.
pub proof fn lemma_remove_user_increasing(rows: Seq<UserRow>, id: int)
    requires
        user_ids_increasing(rows),
    ensures
        user_ids_increasing(remove_user(rows, id)),
    decreases rows.len(),
{
    if rows.len() > 0 {
        let s = rows.drop_last();
        assert(user_ids_increasing(s)) by {
            assert forall|a: int, b: int|
                0 <= a < b < s.len() implies (#[trigger] s[a]).id < (#[trigger] s[b]).id by {
                assert(s[a] == rows[a]);
                assert(s[b] == rows[b]);
            };
        };
        lemma_remove_user_increasing(s, id);
        if rows.last().id != id {
            assert(user_ids_below(s, rows.last().id)) by {
                assert forall|i: int|
                    0 <= i < s.len() implies (#[trigger] s[i]).id < rows.last().id by {
                    assert(s[i] == rows[i]);
                    assert(rows[i].id < rows[rows.len() - 1].id);
                };
            };
            lemma_remove_user_below(s, id, rows.last().id);
            let r0 = remove_user(s, id);
            let out = r0.push(rows.last());
            assert forall|a: int, b: int|
                0 <= a < b < out.len() implies (#[trigger] out[a]).id < (#[trigger] out[b]).id by {
                if b < out.len() - 1 {
                    assert(out[a] == r0[a]);
                    assert(out[b] == r0[b]);
                } else {
                    assert(out[a] == r0[a]);
                    assert(r0[a].id < rows.last().id);
                    assert(out[b] == rows.last());
                }
            };
        }
    }
}

/// Removal leaves no row carrying the removed identifier behind.
pub proof fn lemma_remove_user_absent(rows: Seq<UserRow>, id: int)
    ensures
        !has_user(remove_user(rows, id), id),
    decreases rows.len(),
{
    if rows.len() == 0 {
        assert(remove_user(rows, id).len() == 0);
    } else {
        lemma_remove_user_absent(rows.drop_last(), id);
        if rows.last().id != id {
            let r0 = remove_user(rows.drop_last(), id);
            let out = r0.push(rows.last());
            if has_user(out, id) {
                let i = choose|i: int| 0 <= i < out.len() && out[i].id == id;
                if i < out.len() - 1 {
                    assert(out[i] == r0[i]);
                    assert(has_user(r0, id));
                } else {
                    assert(out[i] == rows.last());
                }
            }
        }
    }
}

/// Deleting an identifier is idempotent in effect: after one removal the
/// identifier is gone, so a second removal touches zero rows and leaves the
/// store exactly as the first left it.
pub proof fn lemma_user_delete_idempotent(rows: Seq<UserRow>, id: int)
    ensures
        !has_user(remove_user(rows, id), id),
        user_count(remove_user(rows, id), id) == 0,
        remove_user(remove_user(rows, id), id) == remove_user(rows, id),
{
    lemma_remove_user_absent(rows, id);
    lemma_user_count_absent(remove_user(rows, id), id);
    lemma_remove_user_noop(remove_user(rows, id), id);
}

/// A saved record is the record its new identifier fetches: with strictly
/// growing identifiers, the row just appended is the row its identifier
/// selects.
pub proof fn lemma_user_save_then_select(rows0: Seq<UserRow>, rows1: Seq<UserRow>)
    requires
        user_ids_increasing(rows1),
        rows1.len() == rows0.len() + 1,
        rows1.drop_last() == rows0,
    ensures
        has_user(rows1, rows1.last().id),
        user_at(rows1, rows1.last().id) == rows1.last(),
{
    lemma_user_at_unique(rows1, rows1.last().id, rows1.len() - 1);
}

/// Updating an existing record and fetching it again reflects exactly the
/// new mutable fields; the record's identifier, and every other record, is
/// unchanged.
pub proof fn lemma_user_update_then_select(
    rows: Seq<UserRow>,
    id: int,
    first_name: Seq<char>,
    last_name: Seq<char>,
    email: Seq<char>,
)
    requires
        user_ids_increasing(rows),
        has_user(rows, id),
    ensures
        has_user(reprofile_rows(rows, id, first_name, last_name, email), id),
        user_at(reprofile_rows(rows, id, first_name, last_name, email), id) == with_profile(
            user_at(rows, id),
            first_name,
            last_name,
            email,
        ),
        forall|i: int|
            0 <= i < rows.len() && (#[trigger] rows[i]).id != id ==> reprofile_rows(
                rows,
                id,
                first_name,
                last_name,
                email,
            )[i] == rows[i],
{
    let rows2 = reprofile_rows(rows, id, first_name, last_name, email);
    let i = choose|i: int| 0 <= i < rows.len() && rows[i].id == id;
    lemma_user_at_unique(rows, id, i);
    assert(rows2[i] == with_profile(rows[i], first_name, last_name, email));
    assert(user_ids_increasing(rows2)) by {
        assert forall|a: int, b: int|
            0 <= a < b < rows2.len() implies (#[trigger] rows2[a]).id < (#[trigger] rows2[b]).id by {
            assert(rows2[a].id == rows[a].id);
            assert(rows2[b].id == rows[b].id);
        };
    };
    lemma_user_at_unique(rows2, id, i);
}

/// A missing identifier is no hit: no row carries it, replacing its mutable
/// fields changes nothing, and removing it changes nothing.
pub proof fn lemma_user_missing_id_effects(
    rows: Seq<UserRow>,
    id: int,
    first_name: Seq<char>,
    last_name: Seq<char>,
    email: Seq<char>,
)
    requires
        !has_user(rows, id),
    ensures
        user_count(rows, id) == 0,
        reprofile_rows(rows, id, first_name, last_name, email) == rows,
        remove_user(rows, id) == rows,
{
    lemma_user_count_absent(rows, id);
    lemma_reprofile_absent(rows, id, first_name, last_name, email);
    lemma_remove_user_noop(rows, id);
}

} // verus!
