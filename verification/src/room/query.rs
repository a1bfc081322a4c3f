//! Listing the rooms of one user.

use vstd::prelude::*;
use vstd::string::StringExecFns;
use crate::text::same_text;
use crate::room::projection::Room;

verus! {

/// The request for the rooms of one user.
#[derive(Debug, Clone, PartialEq, Eq)]
pub struct ListRoomsQuery {
    pub user_id: String,
}

/// The rows of `rows` that `user_id` owns, in the order of `rows`.
pub open spec fn owned_by(rows: Seq<Room>, user_id: Seq<char>) -> Seq<Room>
    decreases rows.len(),
{
    if rows.len() == 0 {
        rows
    } else if rows.last().user_id@ == user_id {
        owned_by(rows.drop_last(), user_id).push(rows.last())
    } else {
        owned_by(rows.drop_last(), user_id)
    }
}

/// Every listed row is owned by the user and was among the rows.
pub proof fn owned_rows_are_owned(rows: Seq<Room>, user_id: Seq<char>)
    ensures
        forall|i: int|
            0 <= i < owned_by(rows, user_id).len() ==> (#[trigger] owned_by(rows, user_id)[i]).user_id@
                == user_id && rows.contains(owned_by(rows, user_id)[i]),
    decreases rows.len(),
{
    if rows.len() > 0 {
        let head = rows.drop_last();
        owned_rows_are_owned(head, user_id);
        let out = owned_by(rows, user_id);
        assert forall|i: int| 0 <= i < out.len() implies (#[trigger] out[i]).user_id@ == user_id
            && rows.contains(out[i]) by {
            if i < owned_by(head, user_id).len() {
                let row = owned_by(head, user_id)[i];
                assert(head.contains(row));
                let k = choose|k: int| 0 <= k < head.len() && head[k] == row;
                assert(rows[k] == row);
            } else {
                assert(rows[rows.len() - 1] == out[i]);
            }
        }
    }
}

impl ListRoomsQuery {
    /// The rows of `rows` that the user owns.
    pub fn select(&self, rows: &Vec<Room>) -> (owned: Vec<Room>)
        ensures
            owned@ == owned_by(rows@, self.user_id@),
    {
        let mut owned: Vec<Room> = Vec::new();
        let mut i: usize = 0;
        proof {
            assert(rows@.subrange(0, 0) =~= Seq::<Room>::empty());
        }
        while i < rows.len()
            invariant
                i <= rows@.len(),
                owned@ == owned_by(rows@.subrange(0, i as int), self.user_id@),
            decreases rows@.len() - i,
        {
            proof {
                let next = rows@.subrange(0, i + 1);
                assert(next.drop_last() =~= rows@.subrange(0, i as int));
                assert(next.last() == rows@[i as int]);
            }
            if same_text(rows[i].user_id.as_str(), self.user_id.as_str()) {
                owned.push(rows[i].duplicate());
            }
            i = i + 1;
        }
        assert(rows@.subrange(0, rows@.len() as int) =~= rows@);
        owned
    }
}

impl Room {
    /// A copy of the row.
    pub fn duplicate(&self) -> (copy: Room)
        ensures
            copy == *self,
    {
        Room {
            id: self.id.clone(),
            name: self.name.clone(),
            user_id: self.user_id.clone(),
            created_at: self.created_at,
        }
    }
}

/// The statement that reads the rows of the owner bound to `$1`.
pub open spec fn spec_list_rows() -> Seq<char> {
    "SELECT * FROM rooms WHERE user_id = $1"@
}

pub fn list_rows() -> (sql: String)
    ensures
        sql@ == spec_list_rows(),
{
    String::from_str("SELECT * FROM rooms WHERE user_id = $1")
}

} // verus!
