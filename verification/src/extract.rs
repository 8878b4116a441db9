//! The extraction pipeline: locate the embedded data blob in a raw
//! search-results page, parse it as JSON, walk the fixed path to the list of
//! entries, and convert each entry that carries the video marker key into a
//! total [`YoutubeVideoInfo`].

use vstd::prelude::*;
use vstd::string::{StringExecFns, StrSliceExecFns};
use crate::json_model::{JsonTree, jt_key, opt_key, opt_idx, str_or_empty};
use crate::json_value::{jmodel, json_parse, parse_json, j_key, j_idx, j_arr_len, j_str};
use crate::record::{VideoInfoModel, YoutubeVideoInfo, views_of};
use crate::text::{find_from, contains_sub, find_sub, chars_of, string_from_chars, lemma_find_from_some};

verus! {

/// The initializer marker: the assignment prefix that introduces the
/// embedded data blob.
pub open spec fn marker() -> Seq<char> {
    "var ytInitialData = "@
}

/// The fixed base every watch URL starts with.
pub open spec fn watch_url_prefix() -> Seq<char> {
    "https://www.youtube.com/watch?v="@
}

/// The fixed base every watch URL starts with.
pub fn watch_url_base() -> (s: &'static str)
    ensures
        s@ == watch_url_prefix(),
{
    "https://www.youtube.com/watch?v="
}

/// The candidate JSON text inside `h`: what follows the first occurrence of
/// the marker, up to but not including the first statement terminator after
/// it. The terminator search is a plain first-semicolon scan, not a
/// brace-balanced parse; that is the accepted trade-off of the data source.
pub open spec fn payload_of(h: Seq<char>) -> Option<Seq<char>> {
    match find_from(h, marker(), 0) {
        Some(i) => {
            let rest = h.subrange(i + marker().len(), h.len() as int);
            match find_from(rest, ";"@, 0) {
                Some(j) => Some(rest.subrange(0, j)),
                None => None,
            }
        },
        None => None,
    }
}

/// The fixed key path from the document root to the list of result entries.
/// `None` where any segment is missing or not of the expected shape.
pub open spec fn results_items(t: JsonTree) -> Option<Seq<JsonTree>> {
    let o = opt_key(Some(t), "contents"@);
    let o = opt_key(o, "twoColumnSearchResultsRenderer"@);
    let o = opt_key(o, "primaryContents"@);
    let o = opt_key(o, "sectionListRenderer"@);
    let o = opt_key(o, "contents"@);
    let o = opt_idx(o, 0);
    let o = opt_key(o, "itemSectionRenderer"@);
    let o = opt_key(o, "contents"@);
    match o {
        Some(JsonTree::Arr(items)) => Some(items),
        _ => None,
    }
}

/// An entry that carries the video marker key; entries without it are other
/// result types and are skipped.
pub open spec fn is_video_entry(e: JsonTree) -> bool {
    jt_key(e, "videoRenderer"@) is Some
}

/// The id field of a video entry payload; empty where absent.
pub open spec fn field_id(v: JsonTree) -> Seq<char> {
    str_or_empty(opt_key(Some(v), "videoId"@))
}

/// The record a video entry payload yields: each field looked up along its
/// own fixed key path, independently defaulting to empty.
pub open spec fn record_of(v: JsonTree) -> VideoInfoModel {
    VideoInfoModel {
        id: field_id(v),
        title: str_or_empty(
            opt_key(opt_idx(opt_key(opt_key(Some(v), "title"@), "runs"@), 0), "text"@),
        ),
        channel: str_or_empty(
            opt_key(opt_idx(opt_key(opt_key(Some(v), "ownerText"@), "runs"@), 0), "text"@),
        ),
        duration: str_or_empty(opt_key(opt_key(Some(v), "lengthText"@), "simpleText"@)),
        avatar: str_or_empty(
            opt_key(
                opt_idx(
                    opt_key(
                        opt_key(
                            opt_key(
                                opt_key(
                                    opt_key(opt_key(Some(v), "avatar"@), "decoratedAvatarViewModel"@),
                                    "avatar"@,
                                ),
                                "avatarViewModel"@,
                            ),
                            "image"@,
                        ),
                        "sources"@,
                    ),
                    0,
                ),
                "url"@,
            ),
        ),
        url: watch_url_prefix() + field_id(v),
        thumbnail: str_or_empty(
            opt_key(opt_idx(opt_key(opt_key(Some(v), "thumbnail"@), "thumbnails"@), 1), "url"@),
        ),
        viewers: str_or_empty(opt_key(opt_key(Some(v), "viewCountText"@), "simpleText"@)),
    }
}

/// The records the entry list yields, in entry order: one per entry with the
/// video marker key, none for the rest.
pub open spec fn records_of(items: Seq<JsonTree>) -> Seq<VideoInfoModel>
    decreases items.len(),
{
    if items.len() == 0 {
        Seq::empty()
    } else {
        records_of(items.drop_last()) + if is_video_entry(items.last()) {
            seq![record_of(jt_key(items.last(), "videoRenderer"@)->Some_0)]
        } else {
            Seq::empty()
        }
    }
}

/// What extraction yields on a raw page: the records of the entry list, or
/// nothing wherever the blob is absent, unparsable, or not of the expected
/// shape.
pub open spec fn spec_extract(h: Seq<char>) -> Seq<VideoInfoModel> {
    match payload_of(h) {
        Some(p) => match json_parse(p) {
            Some(t) => match results_items(t) {
                Some(items) => records_of(items),
                None => Seq::empty(),
            },
            None => Seq::empty(),
        },
        None => Seq::empty(),
    }
}

/// A raw page without the initializer marker yields no records.
pub proof fn lemma_no_marker_empty(h: Seq<char>)
    ensures
        !contains_sub(h, marker()) ==> spec_extract(h) == Seq::<VideoInfoModel>::empty(),
{
    match find_from(h, marker(), 0) {
        Some(p) => {
            lemma_find_from_some(h, marker(), 0, p);
            assert(h.subrange(p, p + marker().len() as int) == marker());
            assert(contains_sub(h, marker()));
        },
        None => {},
    }
}

/// A page whose marker is followed by text that is not valid JSON up to the
/// first terminator yields no records.
pub proof fn lemma_bad_json_empty(h: Seq<char>)
    ensures
        (payload_of(h) matches Some(p) && json_parse(p) is None) ==> spec_extract(h)
            == Seq::<VideoInfoModel>::empty(),
{
}

/// An entry without the video marker key yields no record: removing it
/// leaves the yielded records unchanged.
pub proof fn lemma_non_video_entry_skipped(items: Seq<JsonTree>, i: int)
    requires
        0 <= i < items.len(),
        !is_video_entry(items[i]),
    ensures
        records_of(items) == records_of(items.remove(i)),
    decreases items.len(),
{
    if i == items.len() - 1 {
        assert(items.remove(i) =~= items.drop_last());
    } else {
        lemma_non_video_entry_skipped(items.drop_last(), i);
        assert(items.remove(i).drop_last() =~= items.drop_last().remove(i));
        assert(items.remove(i).last() == items.last());
        assert(items.remove(i).len() == items.len() - 1);
    }
}

/// An entry with the video marker key always yields exactly one record,
/// however many of its fields are missing: appending such an entry appends
/// its record.
pub proof fn lemma_video_entry_appended(items: Seq<JsonTree>, e: JsonTree)
    requires
        is_video_entry(e),
    ensures
        records_of(items.push(e)) == records_of(items).push(
            record_of(jt_key(e, "videoRenderer"@)->Some_0),
        ),
{
    assert(items.push(e).drop_last() =~= items);
    assert(items.push(e).last() == e);
    assert(records_of(items) + seq![record_of(jt_key(e, "videoRenderer"@)->Some_0)]
        =~= records_of(items).push(record_of(jt_key(e, "videoRenderer"@)->Some_0)));
}

proof fn lemma_records_of_urls(items: Seq<JsonTree>, i: int)
    requires
        0 <= i < records_of(items).len(),
    ensures
        records_of(items)[i].url == watch_url_prefix() + records_of(items)[i].id,
    decreases items.len(),
{
    if items.len() > 0 {
        let pre = records_of(items.drop_last());
        if i < pre.len() {
            lemma_records_of_urls(items.drop_last(), i);
        }
    }
}

/// Every yielded record's URL is the fixed watch base followed by that
/// record's id, records with an empty id included.
pub proof fn lemma_record_urls(h: Seq<char>, i: int)
    requires
        0 <= i < spec_extract(h).len(),
    ensures
        spec_extract(h)[i].url == watch_url_prefix() + spec_extract(h)[i].id,
{
    match payload_of(h) {
        Some(p) => match json_parse(p) {
            Some(t) => match results_items(t) {
                Some(items) => lemma_records_of_urls(items, i),
                None => {},
            },
            None => {},
        },
        None => {},
    }
}

/// The model of an optional navigation position.
pub open spec fn vmodel(o: Option<&serde_json::Value>) -> Option<JsonTree> {
    match o {
        Some(v) => Some(jmodel(*v)),
        None => None,
    }
}

/// Chain step: member of an object under `key`, if the position is an object
/// holding it.
fn nav_key<'a>(o: Option<&'a serde_json::Value>, key: &str) -> (r: Option<&'a serde_json::Value>)
    ensures
        vmodel(r) == opt_key(vmodel(o), key@),
{
    match o {
        Some(v) => j_key(v, key),
        None => None,
    }
}

/// Chain step: element of an array at `i`, if the position is an array with
/// `i` in range.
fn nav_idx<'a>(o: Option<&'a serde_json::Value>, i: usize) -> (r: Option<&'a serde_json::Value>)
    ensures
        vmodel(r) == opt_idx(vmodel(o), i as int),
{
    match o {
        Some(v) => j_idx(v, i),
        None => None,
    }
}

/// The text at a navigation position, or the empty string where the position
/// is absent or not a string.
fn nav_text(o: Option<&serde_json::Value>) -> (s: String)
    ensures
        s@ == str_or_empty(vmodel(o)),
{
    match o {
        Some(v) => match j_str(v) {
            Some(t) => t.to_owned(),
            None => String::new(),
        },
        None => String::new(),
    }
}

/// Copy of the characters of `v` from `from` up to `to`.
fn slice_range(v: &Vec<char>, from: usize, to: usize) -> (r: Vec<char>)
    requires
        from <= to <= v@.len(),
    ensures
        r@ == v@.subrange(from as int, to as int),
{
    let mut r: Vec<char> = Vec::new();
    let mut k: usize = from;
    while k < to
        invariant
            from <= k <= to <= v@.len(),
            r@ == v@.subrange(from as int, k as int),
        decreases to - k,
    {
        let c = v[k];
        r.push(c);
        assert(r@ =~= v@.subrange(from as int, k as int + 1));
        k += 1;
    }
    r
}

/// The record a located video entry payload yields.
fn build_record(video: &serde_json::Value) -> (r: YoutubeVideoInfo)
    ensures
        r@ == record_of(jmodel(*video)),
{
    let id = nav_text(nav_key(Some(video), "videoId"));
    let url = String::from_str(watch_url_base()).concat(id.as_str());
    let title = nav_text(
        nav_key(nav_idx(nav_key(nav_key(Some(video), "title"), "runs"), 0), "text"),
    );
    let channel = nav_text(
        nav_key(nav_idx(nav_key(nav_key(Some(video), "ownerText"), "runs"), 0), "text"),
    );
    let duration = nav_text(nav_key(nav_key(Some(video), "lengthText"), "simpleText"));
    let av = nav_key(Some(video), "avatar");
    let av = nav_key(av, "decoratedAvatarViewModel");
    let av = nav_key(av, "avatar");
    let av = nav_key(av, "avatarViewModel");
    let av = nav_key(av, "image");
    let av = nav_key(av, "sources");
    let av = nav_idx(av, 0);
    let avatar = nav_text(nav_key(av, "url"));
    let thumbnail = nav_text(
        nav_key(nav_idx(nav_key(nav_key(Some(video), "thumbnail"), "thumbnails"), 1), "url"),
    );
    let viewers = nav_text(nav_key(nav_key(Some(video), "viewCountText"), "simpleText"));
    YoutubeVideoInfo { id, title, channel, duration, avatar, url, thumbnail, viewers }
}

/// Turn a raw search-results page into the sequence of video records its
/// embedded data blob carries. Never fails: on any miss it yields the empty
/// sequence.
pub fn extract(raw_html: &str) -> (r: Vec<YoutubeVideoInfo>)
    ensures
        views_of(r@) == spec_extract(raw_html@),
{
    let h = chars_of(raw_html);
    let m = chars_of("var ytInitialData = ");
    let empty: Vec<YoutubeVideoInfo> = Vec::new();
    proof {
        assert(views_of(empty@) =~= Seq::<VideoInfoModel>::empty());
    }
    let start = match find_sub(&h, &m, 0) {
        Some(i) => i,
        None => {
            return empty;
        },
    };
    proof {
        lemma_find_from_some(h@, m@, 0, start as int);
    }
    let hl: usize = h.len();
    let rest = slice_range(&h, start + m.len(), hl);
    let semi = chars_of(";");
    let end = match find_sub(&rest, &semi, 0) {
        Some(j) => j,
        None => {
            return empty;
        },
    };
    proof {
        lemma_find_from_some(rest@, semi@, 0, end as int);
    }
    let payload_chars = slice_range(&rest, 0, end);
    let payload = string_from_chars(&payload_chars);
    let doc = match parse_json(payload.as_str()) {
        Some(v) => v,
        None => {
            return empty;
        },
    };
    let o = nav_key(Some(&doc), "contents");
    let o = nav_key(o, "twoColumnSearchResultsRenderer");
    let o = nav_key(o, "primaryContents");
    let o = nav_key(o, "sectionListRenderer");
    let o = nav_key(o, "contents");
    let o = nav_idx(o, 0);
    let o = nav_key(o, "itemSectionRenderer");
    let o = nav_key(o, "contents");
    let list = match o {
        Some(list) => list,
        None => {
            return empty;
        },
    };
    let len = match j_arr_len(list) {
        Some(n) => n,
        None => {
            return empty;
        },
    };
    let ghost items: Seq<JsonTree> = jmodel(*list)->Arr_0;
    proof {
        assert(results_items(json_parse(payload@)->Some_0) == Some(items));
    }
    let mut results: Vec<YoutubeVideoInfo> = Vec::new();
    let mut i: usize = 0;
    while i < len
        invariant
            0 <= i <= len,
            len == items.len(),
            jmodel(*list) == JsonTree::Arr(items),
            views_of(results@) == records_of(items.take(i as int)),
        decreases len - i,
    {
        let entry = match j_idx(list, i) {
            Some(e) => e,
            None => {
                proof {
                    assert(false);
                }
                return empty;
            },
        };
        match j_key(entry, "videoRenderer") {
            Some(video) => {
                let rec = build_record(video);
                proof {
                    assert(jt_key(items[i as int], "videoRenderer"@) == Some(jmodel(*video)));
                }
                results.push(rec);
            },
            None => {
                proof {
                    assert(jt_key(items[i as int], "videoRenderer"@) is None);
                }
            },
        }
        proof {
            assert(items.take(i as int + 1).drop_last() =~= items.take(i as int));
            assert(items.take(i as int + 1).last() == items[i as int]);
            assert(views_of(results@) =~= records_of(items.take(i as int + 1)));
        }
        i += 1;
    }
    proof {
        assert(items.take(len as int) =~= items);
    }
    results
}

} // verus!
