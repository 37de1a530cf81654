//! The parts of the shop's answer about a product.

use vstd::prelude::*;

verus! {

/// One place of a work in a ranking.
#[derive(Debug, Clone)]
pub struct RankEntry {
    pub term: String,
    pub category: String,
    pub rank: u32,
    pub rank_date: String,
}

/// How many buyers gave one number of points.
#[derive(Debug, Clone, Copy, PartialEq, Eq, Structural)]
pub struct ReviewEntry {
    pub review_point: u32,
    pub count: u32,
    pub ratio: u32,
}

/// The price of a work, written out for each locale.
#[allow(non_snake_case)]
#[derive(Debug, Clone)]
pub struct LocalePriceStrEntry {
    pub en_US: String,
    pub ar_AE: String,
    pub es_ES: String,
    pub de_DE: String,
    pub fr_FR: String,
    pub it_IT: String,
    pub pt_BR: String,
    pub zh_TW: String,
    pub zh_CN: String,
    pub ko_KR: String,
    pub id_ID: String,
    pub vi_VN: String,
    pub th_TH: String,
    pub sv_SE: String,
}

/// A value that the shop sends as a text or as a number.
#[derive(Debug, Clone)]
pub enum StringOrU32 {
    String(String),
    U32(u32),
}

/// The download count of one edition of a work.
#[derive(Debug, Clone)]
pub struct DlCountItemEntry {
    pub workno: String,
    pub edition_id: u32,
    pub edition_type: String,
    pub display_order: u32,
    pub label: String,
    pub lang: String,
    pub dl_count: StringOrU32,
    pub display_label: String,
}

} // verus!
