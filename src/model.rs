//! The entities that the service returns, and the shape of a new record.
use vstd::prelude::*;

use crate::datetime::{LocalStamp, NaiveStamp};
use crate::query::push_char;

verus! {

pub struct Customer {
    pub id: usize,
    pub name: String,
    pub visible: bool,
    pub color: String,
}

pub struct Project {
    pub id: usize,
    pub name: String,
    /// Id of the customer that the project belongs to.
    pub customer: usize,
    pub parent_title: String,
    pub visible: bool,
    pub color: Option<String>,
}

pub struct Activity {
    pub id: usize,
    pub name: String,
    /// Id of the project, for an activity that belongs to one.
    pub project: Option<usize>,
    pub parent_title: Option<String>,
    pub visible: bool,
    pub color: Option<String>,
}

/// One tracked interval of work. A record without `end` is still running;
/// `duration`, in seconds, is the server's count either way.
pub struct TimesheetRecord {
    pub id: usize,
    pub description: Option<String>,
    pub begin: LocalStamp,
    pub end: Option<LocalStamp>,
    pub duration: i64,
    pub project: usize,
    pub activity: usize,
    pub user: usize,
    pub tags: Vec<String>,
}

pub struct Team {
    pub id: usize,
    pub name: String,
}

pub struct User {
    pub id: usize,
    pub username: String,
    pub enabled: bool,
    pub roles: Vec<String>,
    pub language: String,
    pub timezone: String,
    pub alias: Option<String>,
    pub title: Option<String>,
    pub avatar: Option<String>,
    pub teams: Vec<Team>,
}

/// The body of a request that starts a record: the begin time is sent as a
/// local date and time without zone, the tags as one text joined by `,`. A
/// tag that holds a `,` itself reads as two tags on the server.
pub struct NewTimesheetRecord {
    pub project: usize,
    pub activity: usize,
    pub begin: NaiveStamp,
    pub description: Option<String>,
    pub tags: Option<String>,
}

/// The texts in their order, separated by `,`.
pub open spec fn join_commas(texts: Seq<Seq<char>>) -> Seq<char>
    decreases texts.len(),
{
    if texts.len() == 0 {
        seq![]
    } else if texts.len() == 1 {
        texts[0]
    } else {
        join_commas(texts.drop_last()) + seq![','] + texts.last()
    }
}

/// The texts of the strings.
pub open spec fn strings_view(v: Seq<String>) -> Seq<Seq<char>> {
    v.map_values(|s: String| s@)
}

/// The tags joined by `,`, in their order.
pub fn join_tags(tags: &Vec<String>) -> (r: String)
    ensures
        r@ == join_commas(strings_view(tags@)),
{
    let mut out = String::new();
    let mut i: usize = 0;
    while i < tags.len()
        invariant
            i <= tags@.len(),
            out@ == join_commas(strings_view(tags@.subrange(0, i as int))),
        decreases tags@.len() - i,
    {
        let ghost before = out@;
        if i > 0 {
            push_char(&mut out, ',');
        }
        out.append(tags[i].as_str());
        proof {
            let next = strings_view(tags@.subrange(0, i + 1));
            assert(next.drop_last() =~= strings_view(tags@.subrange(0, i as int)));
            assert(next.last() == tags@[i as int]@);
            if i == 0 {
                assert(out@ =~= tags@[0]@);
            } else {
                assert(out@ =~= before + seq![','] + tags@[i as int]@);
            }
        }
        i = i + 1;
    }
    assert(tags@.subrange(0, tags@.len() as int) =~= tags@);
    out
}

impl NewTimesheetRecord {
    /// The body that starts a record of `activity` in `project` at `begin`,
    /// sent as its local date and time.
    pub fn new(
        project: usize,
        activity: usize,
        begin: LocalStamp,
        description: Option<String>,
        tags: Option<Vec<String>>,
    ) -> (r: NewTimesheetRecord)
        ensures
            r.project == project,
            r.activity == activity,
            r.begin == begin.local,
            r.description == description,
            tags is None ==> r.tags is None,
            tags matches Some(t) ==> (r.tags matches Some(j) && j@ == join_commas(
                strings_view(t@),
            )),
    {
        let joined = match &tags {
            Some(t) => Some(join_tags(t)),
            None => None,
        };
        NewTimesheetRecord { project, activity, begin: begin.local, description, tags: joined }
    }
}

} // verus!
