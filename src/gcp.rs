use crate::text::{lemma_split_on_not_empty, split_on, split_text, views};
use crate::types::{Backup, GcpApiResponse, GcpError, Operation, SqlInstance};
use vstd::prelude::*;

verus! {

/// The Unix time, in seconds, of an RFC 3339 date and time (a space may stand
/// for the `T`), or `None` when `s` is not one.
pub uninterp spec fn utc_seconds(s: Seq<char>) -> Option<i64>;

/// Relies on chrono's `FromStr` for `DateTime<Utc>` and `DateTime::timestamp`:
/// the result depends on the characters of `s` alone.
#[verifier::external_body]
fn parse_utc_seconds(s: &str) -> (r: Option<i64>)
    ensures
        r == utc_seconds(s@),
{
    match s.parse::<chrono::DateTime<chrono::Utc>>() {
        Ok(t) => Some(t.timestamp()),
        Err(_) => None,
    }
}

/// A line without the carriage return that may end it.
pub open spec fn without_cr(line: Seq<char>) -> Seq<char> {
    if line.len() > 0 && line.last() == '\r' {
        line.drop_last()
    } else {
        line
    }
}

/// The tab-separated fields of each line of `lines` that has at least four.
pub open spec fn records(lines: Seq<Seq<char>>) -> Seq<Seq<Seq<char>>>
    decreases lines.len(),
{
    if lines.len() == 0 {
        Seq::empty()
    } else {
        let earlier = records(lines.drop_last());
        let fields = split_on(without_cr(lines.last()), '\t');
        if fields.len() >= 4 {
            earlier.push(fields)
        } else {
            earlier
        }
    }
}

/// The records of a tab-separated listing, one per line with at least four fields.
pub open spec fn listing_records(text: Seq<char>) -> Seq<Seq<Seq<char>>> {
    records(split_on(text, '\n'))
}

/// `i` is the instance that a record (name, version, region, tier) describes.
pub open spec fn instance_of_record(i: SqlInstance, fields: Seq<Seq<char>>) -> bool {
    &&& i.name@ == fields[0]
    &&& i.database_version@ == fields[1]
    &&& i.region@ == fields[2]
    &&& i.tier@ == fields[3]
}

/// `b` is the backup that a record (id, start time, type, status) describes;
/// an empty start time is none.
pub open spec fn backup_of_record(b: Backup, fields: Seq<Seq<char>>) -> bool {
    &&& b.id@ == fields[0]
    &&& b.start_time == if fields[1].len() == 0 {
        None
    } else {
        utc_seconds(fields[1])
    }
    &&& b.backup_type@ == fields[2]
    &&& b.status@ == fields[3]
}

/// `line` without a final carriage return.
fn strip_cr(line: &str) -> (r: &str)
    ensures
        r@ == without_cr(line@),
{
    let n = line.unicode_len();
    if n > 0 && line.get_char(n - 1) == '\r' {
        let r = line.substring_char(0, n - 1);
        assert(r@ =~= line@.drop_last());
        r
    } else {
        line
    }
}

/// The fields of every line of `text` that has at least four of them.
fn listing_fields(text: &str) -> (rows: Vec<Vec<String>>)
    ensures
        rows@.len() == listing_records(text@).len(),
        forall|k: int|
            0 <= k < rows@.len() ==> views(#[trigger] rows@[k]@) == listing_records(text@)[k],
{
    let lines = split_text(text, '\n');
    let ghost all = split_on(text@, '\n');
    let mut rows: Vec<Vec<String>> = Vec::new();
    let mut j: usize = 0;
    while j < lines.len()
        invariant
            views(lines@) == all,
            j <= lines@.len(),
            rows@.len() == records(all.subrange(0, j as int)).len(),
            forall|k: int|
                0 <= k < rows@.len() ==> views(#[trigger] rows@[k]@) == records(
                    all.subrange(0, j as int),
                )[k],
        decreases lines@.len() - j,
    {
        assert(all.subrange(0, j + 1).drop_last() =~= all.subrange(0, j as int));
        assert(all.subrange(0, j + 1).last() == lines@[j as int]@);
        let fields = split_text(strip_cr(lines[j].as_str()), '\t');
        if fields.len() >= 4 {
            rows.push(fields);
        }
        j += 1;
    }
    assert(all.subrange(0, lines@.len() as int) =~= all);
    rows
}

/// The instances of a listing whose lines read name, version, region and tier,
/// separated by tabs; lines with fewer fields are skipped.
pub fn parse_instance_listing(text: &str) -> (instances: Vec<SqlInstance>)
    ensures
        instances@.len() == listing_records(text@).len(),
        forall|k: int|
            0 <= k < instances@.len() ==> instance_of_record(
                #[trigger] instances@[k],
                listing_records(text@)[k],
            ),
{
    let rows = listing_fields(text);
    let mut instances: Vec<SqlInstance> = Vec::new();
    let mut k: usize = 0;
    while k < rows.len()
        invariant
            k <= rows@.len(),
            rows@.len() == listing_records(text@).len(),
            forall|m: int|
                0 <= m < rows@.len() ==> views(#[trigger] rows@[m]@) == listing_records(text@)[m],
            instances@.len() == k,
            forall|m: int|
                0 <= m < k ==> instance_of_record(#[trigger] instances@[m], listing_records(text@)[m]),
        decreases rows@.len() - k,
    {
        let row = &rows[k];
        assert(views(row@) == listing_records(text@)[k as int]);
        assert(row@.len() >= 4) by {
            lemma_records_wide(split_on(text@, '\n'));
        }
        assert(views(row@)[0] == row@[0]@);
        assert(views(row@)[1] == row@[1]@);
        assert(views(row@)[2] == row@[2]@);
        assert(views(row@)[3] == row@[3]@);
        let instance = SqlInstance {
            name: row[0].clone(),
            database_version: row[1].clone(),
            region: row[2].clone(),
            tier: row[3].clone(),
        };
        instances.push(instance);
        k += 1;
    }
    instances
}

/// The backups of a listing whose lines read id, start time, type and status,
/// separated by tabs; lines with fewer fields are skipped, and a start time
/// that is empty or not a date and time is none.
pub fn parse_backup_listing(text: &str) -> (backups: Vec<Backup>)
    ensures
        backups@.len() == listing_records(text@).len(),
        forall|k: int|
            0 <= k < backups@.len() ==> backup_of_record(
                #[trigger] backups@[k],
                listing_records(text@)[k],
            ),
{
    let rows = listing_fields(text);
    let mut backups: Vec<Backup> = Vec::new();
    let mut k: usize = 0;
    while k < rows.len()
        invariant
            k <= rows@.len(),
            rows@.len() == listing_records(text@).len(),
            forall|m: int|
                0 <= m < rows@.len() ==> views(#[trigger] rows@[m]@) == listing_records(text@)[m],
            backups@.len() == k,
            forall|m: int|
                0 <= m < k ==> backup_of_record(#[trigger] backups@[m], listing_records(text@)[m]),
        decreases rows@.len() - k,
    {
        let row = &rows[k];
        assert(views(row@) == listing_records(text@)[k as int]);
        assert(row@.len() >= 4) by {
            lemma_records_wide(split_on(text@, '\n'));
        }
        assert(views(row@)[0] == row@[0]@);
        assert(views(row@)[1] == row@[1]@);
        assert(views(row@)[2] == row@[2]@);
        assert(views(row@)[3] == row@[3]@);
        let start_time = if row[1].as_str().unicode_len() == 0 {
            None
        } else {
            parse_utc_seconds(row[1].as_str())
        };
        let backup = Backup {
            id: row[0].clone(),
            start_time,
            backup_type: row[2].clone(),
            status: row[3].clone(),
        };
        backups.push(backup);
        k += 1;
    }
    backups
}

proof fn lemma_records_wide(lines: Seq<Seq<char>>)
    ensures
        forall|k: int| 0 <= k < records(lines).len() ==> (#[trigger] records(lines)[k]).len() >= 4,
    decreases lines.len(),
{
    if lines.len() > 0 {
        let earlier = lines.drop_last();
        lemma_records_wide(earlier);
        assert forall|k: int| 0 <= k < records(lines).len() implies (#[trigger] records(
            lines,
        )[k]).len() >= 4 by {
            if k < records(earlier).len() {
                assert(records(lines)[k] == records(earlier)[k]);
            }
        }
    }
}

/// The operation id at the end of a full operation name: the part after its last `/`.
pub fn operation_id_from_name(name: &str) -> (id: String)
    ensures
        id@ == split_on(name@, '/').last(),
{
    let parts = split_text(name, '/');
    proof {
        lemma_split_on_not_empty(name@, '/');
    }
    let last = parts.len() - 1;
    assert(views(parts@)[last as int] == parts@[last as int]@);
    parts[last].clone()
}

/// The text of `o`, or "Unknown" when there is none.
pub open spec fn or_unknown(o: Option<String>) -> Seq<char> {
    match o {
        Some(s) => s@,
        None => "Unknown"@,
    }
}

/// The time that an optional date and time text stands for.
pub open spec fn time_of(o: Option<String>) -> Option<i64> {
    match o {
        Some(s) => utc_seconds(s@),
        None => None,
    }
}

fn text_or_unknown(o: Option<String>) -> (r: String)
    ensures
        r@ == or_unknown(o),
{
    match o {
        Some(s) => s,
        None => String::from_str("Unknown"),
    }
}

fn parse_time(o: &Option<String>) -> (r: Option<i64>)
    ensures
        r == time_of(*o),
{
    match o {
        Some(s) => parse_utc_seconds(s.as_str()),
        None => None,
    }
}

/// The operation `operation_id` as the remote API described it: missing texts
/// read "Unknown", times are parsed, and the error, if any, gives the message.
pub fn operation_from_response(operation_id: &str, response: GcpApiResponse) -> (op: Operation)
    ensures
        op.id@ == operation_id@,
        op.operation_type@ == or_unknown(response.operation_type),
        op.status@ == or_unknown(response.status),
        op.target_id@ == or_unknown(response.target_id),
        op.start_time == time_of(response.start_time),
        op.end_time == time_of(response.end_time),
        op.error_message == match response.error {
            Some(e) => Some(e.message),
            None => None::<String>,
        },
{
    let start_time = parse_time(&response.start_time);
    let end_time = parse_time(&response.end_time);
    let error_message = match response.error {
        Some(GcpError { message }) => Some(message),
        None => None,
    };
    Operation {
        id: String::from_str(operation_id),
        operation_type: text_or_unknown(response.operation_type),
        status: text_or_unknown(response.status),
        target_id: text_or_unknown(response.target_id),
        start_time,
        end_time,
        error_message,
    }
}

} // verus!
