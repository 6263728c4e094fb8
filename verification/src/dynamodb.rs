//! The configuration of a DynamoDB session store: its table, its keys, and how the keys of a
//! session are written; and the batching of its deletions of expired sessions.
use crate::id::{id_text, Id};
use vstd::prelude::*;
use vstd::string::StringExecFns;

verus! {

/// The DynamoDB property name of a key, and an optional prefix and suffix to write around the
/// session id.
#[derive(Clone, Debug)]
pub struct DynamoDBStoreKey {
    /// The property name of the key.
    pub name: String,
    /// The optional prefix to add before the session id (useful for single-table designs).
    pub prefix: Option<String>,
    /// The optional suffix to add after the session id (useful for single-table designs).
    pub suffix: Option<String>,
}

impl Default for DynamoDBStoreKey {
    fn default() -> (key: Self)
        ensures
            key.name@ == "session_id"@,
            key.prefix matches Some(p) && p@ == "SESSIONS::TOWER::"@,
            key.suffix is None,
    {
        DynamoDBStoreKey {
            name: String::from_str("session_id"),
            prefix: Some(String::from_str("SESSIONS::TOWER::")),
            suffix: None,
        }
    }
}

/// Properties for configuring the session store.
#[derive(Clone, Debug)]
pub struct DynamoDBStoreProps {
    /// DynamoDB table name to store sessions in.
    pub table_name: String,
    /// The DynamoDB partition (hash) key to store the session id at.
    pub partition_key: DynamoDBStoreKey,
    /// The DynamoDB sort (search) key to store the session id under (useful with single-table
    /// designs).
    pub sort_key: Option<DynamoDBStoreKey>,
    /// The property name to hold the expiration time of the session, a Unix timestamp in
    /// seconds.
    pub expirey_name: String,
    /// The property name to hold the session data blob.
    pub data_name: String,
}

impl Default for DynamoDBStoreProps {
    fn default() -> (props: Self)
        ensures
            props.table_name@ == "tower-sessions"@,
            props.partition_key.name@ == "session_id"@,
            props.partition_key.prefix matches Some(p) && p@ == "SESSIONS::TOWER::"@,
            props.partition_key.suffix is None,
            props.sort_key is None,
            props.expirey_name@ == "expire_at"@,
            props.data_name@ == "data"@,
    {
        DynamoDBStoreProps {
            table_name: String::from_str("tower-sessions"),
            partition_key: DynamoDBStoreKey::default(),
            sort_key: None,
            expirey_name: String::from_str("expire_at"),
            data_name: String::from_str("data"),
        }
    }
}

/// The text of an optional affix: empty when there is none.
pub open spec fn affix_text(affix: Option<String>) -> Seq<char> {
    match affix {
        Some(a) => a@,
        None => Seq::empty(),
    }
}

/// The value of `key` for a session: the prefix, the id's text, then the suffix.
pub open spec fn key_value(key: DynamoDBStoreKey, id: Id) -> Seq<char> {
    affix_text(key.prefix) + id_text(id) + affix_text(key.suffix)
}

fn write_key(key: &DynamoDBStoreKey, id: &Id) -> (value: String)
    ensures
        value@ == key_value(*key, *id),
{
    let mut value = match &key.prefix {
        Some(prefix) => prefix.clone(),
        None => String::new(),
    };
    let text = id.to_string();
    value.append(text.as_str());
    match &key.suffix {
        Some(suffix) => value.append(suffix.as_str()),
        None => {},
    }
    value
}

impl DynamoDBStoreProps {
    /// The partition key's value for session `id`: the prefix, the id's text, then the suffix.
    pub fn pk(&self, id: &Id) -> (value: String)
        ensures
            value@ == key_value(self.partition_key, *id),
    {
        write_key(&self.partition_key, id)
    }

    /// The sort key's value for session `id`: the prefix, the id's text, then the suffix; empty
    /// when the table has no sort key.
    pub fn sk(&self, id: &Id) -> (value: String)
        ensures
            value@ == match self.sort_key {
                Some(key) => key_value(key, *id),
                None => Seq::empty(),
            },
    {
        match &self.sort_key {
            Some(key) => write_key(key, id),
            None => String::new(),
        }
    }
}

/// The most write requests that DynamoDB's `BatchWriteItem` takes at once.
pub const BATCH_SIZE: usize = 25;

/// The concatenation of a sequence of batches.
pub open spec fn concat_batches<T>(batches: Seq<Seq<T>>) -> Seq<T>
    decreases batches.len(),
{
    if batches.len() == 0 {
        Seq::empty()
    } else {
        concat_batches(batches.drop_last()) + batches.last()
    }
}

/// The views of a sequence of vectors.
pub open spec fn batch_views<T>(batches: Seq<Vec<T>>) -> Seq<Seq<T>> {
    batches.map_values(|b: Vec<T>| b@)
}

/// Splits the write requests that delete expired sessions into the batches that
/// `BatchWriteItem` is sent: in order, every batch of 25 requests but the last, which holds
/// between 1 and 25.
pub fn delete_batches<T>(requests: Vec<T>) -> (batches: Vec<Vec<T>>)
    ensures
        concat_batches(batch_views(batches@)) == requests@,
        forall|i: int| 0 <= i < batches@.len() ==> 1 <= #[trigger] batches@[i]@.len() <= BATCH_SIZE,
        forall|i: int| 0 <= i < batches@.len() - 1 ==> #[trigger] batches@[i]@.len() == BATCH_SIZE,
{
    let mut batches: Vec<Vec<T>> = Vec::new();
    let mut rest = requests;
    while rest.len() > BATCH_SIZE
        invariant
            concat_batches(batch_views(batches@)) + rest@ == requests@,
            forall|i: int| 0 <= i < batches@.len() ==> #[trigger] batches@[i]@.len() == BATCH_SIZE,
        decreases rest.len(),
    {
        let tail = rest.split_off(BATCH_SIZE);
        let ghost before = batches@;
        batches.push(rest);
        proof {
            assert(batch_views(batches@).drop_last() =~= batch_views(before));
        }
        rest = tail;
    }
    if rest.len() > 0 {
        let ghost before = batches@;
        batches.push(rest);
        proof {
            assert(batch_views(batches@).drop_last() =~= batch_views(before));
        }
    } else {
        assert(rest@ =~= Seq::<T>::empty());
    }
    batches
}

/// The number of requests left for `table` among the unprocessed items that `BatchWriteItem`
/// reported, as pairs of a table name and its number of requests: that of the first pair
/// for `table`, and 0 where there is none or nothing was reported.
pub open spec fn unprocessed_for(unprocessed: Option<Seq<(String, usize)>>, table: Seq<char>) -> nat
    decreases (match unprocessed {
        Some(pairs) => pairs.len(),
        None => 0,
    }),
{
    match unprocessed {
        None => 0,
        Some(pairs) => if pairs.len() == 0 {
            0
        } else if pairs[0].0@ == table {
            pairs[0].1 as nat
        } else {
            unprocessed_for(Some(pairs.drop_first()), table)
        },
    }
}

/// The number of write requests that `BatchWriteItem` left unprocessed for `table`; the batch
/// is sent again while it is not 0.
pub fn unprocessed_count(unprocessed: &Option<Vec<(String, usize)>>, table: &str) -> (count: usize)
    ensures
        count == unprocessed_for(
            match unprocessed {
                Some(pairs) => Some(pairs@),
                None => None,
            },
            table@,
        ),
{
    match unprocessed {
        None => 0,
        Some(pairs) => {
            let wanted = String::from_str(table);
            let mut i: usize = 0;
            assert(pairs@.skip(0) =~= pairs@);
            while i < pairs.len()
                invariant
                    0 <= i <= pairs.len(),
                    wanted@ == table@,
                    *unprocessed == Some(*pairs),
                    unprocessed_for(Some(pairs@), table@) == unprocessed_for(Some(pairs@.skip(i as int)), table@),
                decreases pairs.len() - i,
            {
                assert(pairs@.skip(i as int).drop_first() =~= pairs@.skip(i as int + 1));
                assert(pairs@.skip(i as int)[0] == pairs@[i as int]);
                if pairs[i].0 == wanted {
                    return pairs[i].1;
                }
                i = i + 1;
            }
            0
        },
    }
}

impl DynamoDBStoreProps {
    /// The key condition of the query that loads a session: on the partition key, and on the
    /// sort key too where there is one.
    pub fn key_condition(&self) -> (condition: &'static str)
        ensures
            condition@ == if self.sort_key is Some {
                "#pk = :pk AND #sk = :sk"@
            } else {
                "#pk = :pk"@
            },
    {
        if self.sort_key.is_some() {
            "#pk = :pk AND #sk = :sk"
        } else {
            "#pk = :pk"
        }
    }
}

/// The session data that loading finds among the items a query gave, each item given by its
/// data blob (`None` for an item without one): the blob of the first item, if any.
pub fn session_data(items: Vec<Option<Vec<u8>>>) -> (data: Option<Vec<u8>>)
    ensures
        data == (if items@.len() == 0 {
            None::<Vec<u8>>
        } else {
            items@[0]
        }),
{
    let mut items = items;
    if items.len() == 0 {
        None
    } else {
        items.swap_remove(0)
    }
}

} // verus!
