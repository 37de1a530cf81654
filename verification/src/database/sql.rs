//! The SQL statements that the organizer sends to its database.

use vstd::prelude::*;
use crate::database::tables::{
    DB_CIRCLE_NAME, DB_CVS_NAME, DB_DLSITE_SCAN_NAME, DB_DLSITE_TAG_NAME, DB_FOLDERS_NAME, DB_LKP_WORK_CIRCLE_NAME, DB_LKP_WORK_CVS_NAME, DB_LKP_WORK_TAG_NAME, DB_RATING_NAME, DB_RELEASE_DATE_NAME,
};
use crate::file_name::{decimal_string, decimal_text};
use crate::folders::types::{ManagedFolder, RGCode, RJCode};
use crate::text::texts;

verus! {

/// One `select` per value, joined by `union all`.
pub open spec fn select_list(values: Seq<Seq<char>>) -> Seq<char>
    decreases values.len(),
{
    if values.len() == 0 {
        Seq::empty()
    } else if values.len() == 1 {
        "select '"@ + values[0] + "' as val"@
    } else {
        select_list(values.drop_last()) + " union all "@ + "select '"@ + values.last()
            + "' as val"@
    }
}

/// Writes one `select` per value, joined by `union all`.
pub fn join_selects(values: &Vec<String>) -> (r: String)
    ensures
        r@ == select_list(texts(values@)),
{
    let mut q = String::new();
    let mut i: usize = 0;
    assert(texts(values@).take(0) =~= Seq::<Seq<char>>::empty());
    while i < values.len()
        invariant
            i <= values.len(),
            q@ == select_list(texts(values@).take(i as int)),
        decreases values.len() - i,
    {
        let ghost before = texts(values@).take(i as int);
        let ghost now = texts(values@).take(i + 1);
        assert(now.drop_last() == before);
        assert(now.last() == values@[i as int]@);
        if i > 0 {
            q.append(" union all ");
        }
        q.append("select '");
        q.append(values[i].as_str());
        q.append("' as val");
        proof {
            if i == 0 {
                assert(before.len() == 0);
                assert(q@ =~= "select '"@ + now[0] + "' as val"@);
            } else {
                assert(q@ =~= select_list(before) + " union all "@ + "select '"@ + now.last()
                    + "' as val"@);
            }
        }
        i += 1;
    }
    assert(texts(values@).take(values@.len() as int) == texts(values@));
    q
}

/// The statement that records when the database was set up, as text.
pub open spec fn init_db_text() -> Seq<char> {
    "create table if not exists db_init as \n            select \n                datetime() as init_dte"@
}

/// The statement that records when the database was set up.
pub fn init_db() -> (r: String)
    ensures
        r@ == init_db_text(),
{
    String::from_str("create table if not exists db_init as \n            select \n                datetime() as init_dte")
}

/// The statement that creates a table with the given columns, unless it exists, as text.
pub open spec fn init_table_text(name: Seq<char>, cols: Seq<char>) -> Seq<char> {
    "create table if not exists "@
        + name
        + " ("@
        + cols
        + ")"@
}

/// The statement that creates a table with the given columns, unless it exists.
pub fn init_table(name: &str, cols: &str) -> (r: String)
    ensures
        r@ == init_table_text(name@, cols@),
{
    let mut q = String::from_str("create table if not exists ");
    q.append(name);
    q.append(" (");
    q.append(cols);
    q.append(")");
    q
}

/// The query for the largest id of a table, or 1 where the table is empty, as text.
pub open spec fn get_max_id_text(id_fld: Seq<char>, table: Seq<char>) -> Seq<char> {
    "select \n            coalesce(max("@
        + id_fld
        + "), 1) \n        from \n            "@
        + table
}

/// The query for the largest id of a table, or 1 where the table is empty.
pub fn get_max_id(id_fld: &str, table: &str) -> (r: String)
    ensures
        r@ == get_max_id_text(id_fld@, table@),
{
    let mut q = String::from_str("select \n            coalesce(max(");
    q.append(id_fld);
    q.append("), 1) \n        from \n            ");
    q.append(table);
    q
}

/// The statement that registers a work's folder under an id, unless its code is known, as text.
pub open spec fn insert_managed_folder_text(path: Seq<char>, rjcode: Seq<char>, fld_id: nat) -> Seq<char> {
    "insert or ignore into "@
        + DB_FOLDERS_NAME@
        + " values\n            (\n                "@
        + decimal_text(fld_id)
        + ",\n                '"@
        + rjcode
        + "',\n                '"@
        + path
        + "',\n                datetime(),\n                true\n            )"@
}

/// The statement that registers a work's folder under an id, unless its code is known.
pub fn insert_managed_folder(mf: &ManagedFolder, fld_id: usize) -> (r: String)
    ensures
        r@ == insert_managed_folder_text(mf.path@, mf.rjcode@, fld_id as nat),
{
    let mut q = String::from_str("insert or ignore into ");
    q.append(DB_FOLDERS_NAME);
    q.append(" values\n            (\n                ");
    q.append(decimal_string(fld_id as u64).as_str());
    q.append(",\n                '");
    q.append(mf.rjcode.as_str());
    q.append("',\n                '");
    q.append(mf.path.as_str());
    q.append("',\n                datetime(),\n                true\n            )");
    q
}

/// The query for the codes of the works that were never looked up, as text.
pub open spec fn get_unscanned_works_text() -> Seq<char> {
    "select \n            t1.rjcode \n        from \n            "@
        + DB_FOLDERS_NAME@
        + " t1\n        left join\n            "@
        + DB_DLSITE_SCAN_NAME@
        + " t2\n        using(fld_id)\n        where\n            t2.last_scan is null"@
}

/// The query for the codes of the works that were never looked up.
pub fn get_unscanned_works() -> (r: String)
    ensures
        r@ == get_unscanned_works_text(),
{
    let mut q = String::from_str("select \n            t1.rjcode \n        from \n            ");
    q.append(DB_FOLDERS_NAME);
    q.append(" t1\n        left join\n            ");
    q.append(DB_DLSITE_SCAN_NAME);
    q.append(" t2\n        using(fld_id)\n        where\n            t2.last_scan is null");
    q
}

/// The statement that stores a tag under an id, unless it is known, as text.
pub open spec fn insert_tag_text(tag: Seq<char>, tag_id: nat) -> Seq<char> {
    "insert or ignore into "@
        + DB_DLSITE_TAG_NAME@
        + " values\n            (\n                "@
        + decimal_text(tag_id)
        + ",\n                '"@
        + tag
        + "'\n            )"@
}

/// The statement that stores a tag under an id, unless it is known.
pub fn insert_tag(tag: &str, tag_id: usize) -> (r: String)
    ensures
        r@ == insert_tag_text(tag@, tag_id as nat),
{
    let mut q = String::from_str("insert or ignore into ");
    q.append(DB_DLSITE_TAG_NAME);
    q.append(" values\n            (\n                ");
    q.append(decimal_string(tag_id as u64).as_str());
    q.append(",\n                '");
    q.append(tag);
    q.append("'\n            )");
    q
}

/// The statement that stores a circle with its two names under an id, as text.
pub open spec fn insert_circle_text(circle: Seq<char>, en_name: Seq<char>, jp_name: Seq<char>, cir_id: nat) -> Seq<char> {
    "insert or replace into "@
        + DB_CIRCLE_NAME@
        + " values\n            (\n                "@
        + decimal_text(cir_id)
        + ",\n                '"@
        + circle
        + "',\n                '"@
        + en_name
        + "',\n                '"@
        + jp_name
        + "'\n            )"@
}

/// The statement that stores a circle with its two names under an id.
pub fn insert_circle(circle: RGCode, en_name: &str, jp_name: &str, cir_id: usize) -> (r: String)
    ensures
        r@ == insert_circle_text(circle@, en_name@, jp_name@, cir_id as nat),
{
    let mut q = String::from_str("insert or replace into ");
    q.append(DB_CIRCLE_NAME);
    q.append(" values\n            (\n                ");
    q.append(decimal_string(cir_id as u64).as_str());
    q.append(",\n                '");
    q.append(circle.as_str());
    q.append("',\n                '");
    q.append(en_name);
    q.append("',\n                '");
    q.append(jp_name);
    q.append("'\n            )");
    q
}

/// The statement that stores a voice actor with two names under an id, as text.
pub open spec fn insert_cv_text(jp_name: Seq<char>, en_name: Seq<char>, cv_id: nat) -> Seq<char> {
    "insert or replace into "@
        + DB_CVS_NAME@
        + " values\n            (\n                "@
        + decimal_text(cv_id)
        + ",\n                '"@
        + jp_name
        + "',\n                '"@
        + en_name
        + "'\n            )"@
}

/// The statement that stores a voice actor with two names under an id.
pub fn insert_cv(jp_name: &str, en_name: &str, cv_id: usize) -> (r: String)
    ensures
        r@ == insert_cv_text(jp_name@, en_name@, cv_id as nat),
{
    let mut q = String::from_str("insert or replace into ");
    q.append(DB_CVS_NAME);
    q.append(" values\n            (\n                ");
    q.append(decimal_string(cv_id as u64).as_str());
    q.append(",\n                '");
    q.append(jp_name);
    q.append("',\n                '");
    q.append(en_name);
    q.append("'\n            )");
    q
}

/// The statement that stores the release date of a work, as text.
pub open spec fn assign_release_date_to_work_text(work: Seq<char>, date: Seq<char>) -> Seq<char> {
    "insert into "@
        + DB_RELEASE_DATE_NAME@
        + "\n        select\n            t1.fld_id,\n            cast('"@
        + date
        + "' as datetime) as release_date\n        from\n            "@
        + DB_FOLDERS_NAME@
        + " t1\n        where\n            t1.rjcode = '"@
        + work
        + "'"@
}

/// The statement that stores the release date of a work.
pub fn assign_release_date_to_work(work: RJCode, date: &str) -> (r: String)
    ensures
        r@ == assign_release_date_to_work_text(work@, date@),
{
    let mut q = String::from_str("insert into ");
    q.append(DB_RELEASE_DATE_NAME);
    q.append("\n        select\n            t1.fld_id,\n            cast('");
    q.append(date);
    q.append("' as datetime) as release_date\n        from\n            ");
    q.append(DB_FOLDERS_NAME);
    q.append(" t1\n        where\n            t1.rjcode = '");
    q.append(work.as_str());
    q.append("'");
    q
}

/// The statement that links a work to its circle, as text.
pub open spec fn assign_circle_to_work_text(work: Seq<char>, circle: Seq<char>) -> Seq<char> {
    "insert into "@
        + DB_LKP_WORK_CIRCLE_NAME@
        + "\n        select\n            t1.fld_id,\n            t2.cir_id\n        from\n            "@
        + DB_FOLDERS_NAME@
        + " t1,\n            "@
        + DB_CIRCLE_NAME@
        + " t2\n        where\n            t1.rjcode = '"@
        + work
        + "'\n            and t2.rgcode = '"@
        + circle
        + "'"@
}

/// The statement that links a work to its circle.
pub fn assign_circle_to_work(work: RJCode, circle: RGCode) -> (r: String)
    ensures
        r@ == assign_circle_to_work_text(work@, circle@),
{
    let mut q = String::from_str("insert into ");
    q.append(DB_LKP_WORK_CIRCLE_NAME);
    q.append("\n        select\n            t1.fld_id,\n            t2.cir_id\n        from\n            ");
    q.append(DB_FOLDERS_NAME);
    q.append(" t1,\n            ");
    q.append(DB_CIRCLE_NAME);
    q.append(" t2\n        where\n            t1.rjcode = '");
    q.append(work.as_str());
    q.append("'\n            and t2.rgcode = '");
    q.append(circle.as_str());
    q.append("'");
    q
}

/// The statement that links a work to the tags with the given names, as text.
pub open spec fn assign_tags_to_work_text(work: Seq<char>, tags: Seq<Seq<char>>) -> Seq<char> {
    "with cte as ("@
        + select_list(tags)
        + ")\n        insert into "@
        + DB_LKP_WORK_TAG_NAME@
        + "\n        select \n            t1.fld_id,\n            t2.tag_id\n        from\n            "@
        + DB_FOLDERS_NAME@
        + " t1,\n            "@
        + DB_DLSITE_TAG_NAME@
        + " t2\n        where \n            t1.rjcode = '"@
        + work
        + "'\n            and t2.tag_name in \n            (select val from cte)"@
}

/// The statement that links a work to the tags with the given names.
pub fn assign_tags_to_work(work: RJCode, tags: &Vec<String>) -> (r: String)
    ensures
        r@ == assign_tags_to_work_text(work@, texts(tags@)),
{
    let mut q = String::from_str("with cte as (");
    q.append(join_selects(tags).as_str());
    q.append(")\n        insert into ");
    q.append(DB_LKP_WORK_TAG_NAME);
    q.append("\n        select \n            t1.fld_id,\n            t2.tag_id\n        from\n            ");
    q.append(DB_FOLDERS_NAME);
    q.append(" t1,\n            ");
    q.append(DB_DLSITE_TAG_NAME);
    q.append(" t2\n        where \n            t1.rjcode = '");
    q.append(work.as_str());
    q.append("'\n            and t2.tag_name in \n            (select val from cte)");
    q
}

/// The statement that stores the age rating of a work, as text.
pub open spec fn assign_rating_to_work_text(work: Seq<char>, rating: Seq<char>) -> Seq<char> {
    "insert into "@
        + DB_RATING_NAME@
        + "\n        select\n            t1.fld_id,\n            '"@
        + rating
        + "' as rating\n        from\n            "@
        + DB_FOLDERS_NAME@
        + " t1\n        where\n            t1.rjcode = '"@
        + work
        + "'"@
}

/// The statement that stores the age rating of a work.
pub fn assign_rating_to_work(work: RJCode, rating: &str) -> (r: String)
    ensures
        r@ == assign_rating_to_work_text(work@, rating@),
{
    let mut q = String::from_str("insert into ");
    q.append(DB_RATING_NAME);
    q.append("\n        select\n            t1.fld_id,\n            '");
    q.append(rating);
    q.append("' as rating\n        from\n            ");
    q.append(DB_FOLDERS_NAME);
    q.append(" t1\n        where\n            t1.rjcode = '");
    q.append(work.as_str());
    q.append("'");
    q
}

/// The statement that links a work to the voice actors with the given names, as text.
pub open spec fn assign_cvs_to_work_text(work: Seq<char>, cvs: Seq<Seq<char>>) -> Seq<char> {
    "with cte as ("@
        + select_list(cvs)
        + ")\n        insert into "@
        + DB_LKP_WORK_CVS_NAME@
        + "\n        select \n            t1.fld_id,\n            t2.cv_id\n        from\n            "@
        + DB_FOLDERS_NAME@
        + " t1,\n            "@
        + DB_CVS_NAME@
        + " t2\n        where \n            t1.rjcode = '"@
        + work
        + "'\n            and t2.name_jp in \n            (select val from cte)"@
}

/// The statement that links a work to the voice actors with the given names.
pub fn assign_cvs_to_work(work: RJCode, cvs: &Vec<String>) -> (r: String)
    ensures
        r@ == assign_cvs_to_work_text(work@, texts(cvs@)),
{
    let mut q = String::from_str("with cte as (");
    q.append(join_selects(cvs).as_str());
    q.append(")\n        insert into ");
    q.append(DB_LKP_WORK_CVS_NAME);
    q.append("\n        select \n            t1.fld_id,\n            t2.cv_id\n        from\n            ");
    q.append(DB_FOLDERS_NAME);
    q.append(" t1,\n            ");
    q.append(DB_CVS_NAME);
    q.append(" t2\n        where \n            t1.rjcode = '");
    q.append(work.as_str());
    q.append("'\n            and t2.name_jp in \n            (select val from cte)");
    q
}

/// The statement that records that a work was looked up now, as text.
pub open spec fn set_work_scan_date_text(work: Seq<char>) -> Seq<char> {
    "insert or replace into "@
        + DB_DLSITE_SCAN_NAME@
        + "\n    select \n        t1.fld_id,\n        datetime() as last_scan\n    from "@
        + DB_FOLDERS_NAME@
        + " t1\n        where rjcode = '"@
        + work
        + "'"@
}

/// The statement that records that a work was looked up now.
pub fn set_work_scan_date(work: RJCode) -> (r: String)
    ensures
        r@ == set_work_scan_date_text(work@),
{
    let mut q = String::from_str("insert or replace into ");
    q.append(DB_DLSITE_SCAN_NAME);
    q.append("\n    select \n        t1.fld_id,\n        datetime() as last_scan\n    from ");
    q.append(DB_FOLDERS_NAME);
    q.append(" t1\n        where rjcode = '");
    q.append(work.as_str());
    q.append("'");
    q
}

} // verus!
