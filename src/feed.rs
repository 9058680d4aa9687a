//! Rendering series as an RSS 2.0 document.
use crate::date::{rfc2822_of, secs_in_range};
use crate::model::{ChapterInfo, ChapterModel, MangaInfo, MangaModel, Timestamp};
use vstd::prelude::*;

verus! {

/// How many of the latest chapters of each series the feed shows.
pub const WINDOW: usize = 10;

/// The last `n` elements of `s`, or all of `s` where it has fewer.
pub open spec fn last_n<A>(s: Seq<A>, n: nat) -> Seq<A> {
    if s.len() <= n {
        s
    } else {
        s.subrange(s.len() - n, s.len() as int)
    }
}

/// Where the window of the last `n` elements of `len` ones starts.
pub open spec fn window_start(len: nat, n: nat) -> nat {
    if len <= n {
        0
    } else {
        (len - n) as nat
    }
}

/// Copies the last `n` elements of `v` in their order, or all of `v` where it
/// has fewer.
pub fn last_n_elements<T: Clone>(v: &[T], n: usize) -> (r: Vec<T>)
    ensures
        r@.len() == last_n(v@, n as nat).len(),
        forall|i: int| 0 <= i < r@.len() ==> cloned(#[trigger] last_n(v@, n as nat)[i], r@[i]),
{
    let last_index = v.len();
    let start: usize = if last_index < n {
        0
    } else {
        last_index - n
    };
    let mut r: Vec<T> = Vec::new();
    let mut i: usize = start;
    while i < last_index
        invariant
            start <= i <= last_index,
            last_index == v@.len(),
            start == window_start(v@.len(), n as nat),
            r@.len() == i - start,
            forall|k: int| 0 <= k < r@.len() ==> cloned(#[trigger] v@[start + k], r@[k]),
        decreases last_index - i,
    {
        let c = v[i].clone();
        r.push(c);
        i = i + 1;
    }
    assert forall|k: int| 0 <= k < r@.len() implies cloned(#[trigger] last_n(v@, n as nat)[k], r@[k]) by {
        assert(last_n(v@, n as nat)[k] == v@[start + k]);
    }
    r
}

/// The selection of the last `n` elements has `min(len, n)` of them, and they
/// are the trailing slice of the sequence, in order.
pub proof fn lemma_last_n_is_trailing_slice<A>(s: Seq<A>, n: nat)
    ensures
        last_n(s, n).len() == if s.len() <= n { s.len() } else { n },
        last_n(s, n) == s.subrange(s.len() - last_n(s, n).len(), s.len() as int),
{
    if s.len() <= n {
        assert(s.subrange(0, s.len() as int) =~= s);
    }
}

/// The `<item>` element of one chapter of a series, dated `date`.
pub open spec fn item_text(series: MangaModel, chapter: ChapterModel, date: Seq<char>) -> Seq<char> {
    "    <item>\n      <title>"@ + series.name + " - "@ + chapter.name
        + "</title>\n      <description>"@ + chapter.name + "</description>\n      <pubDate>"@
        + date + "</pubDate>\n      <link>https://mangarock.com/manga/"@ + series.oid
        + "/chapter/"@ + chapter.oid + "</link>\n    </item>"@
}

/// The items of one series: its latest chapters, each dated by its update time.
pub open spec fn series_items(series: MangaModel) -> Seq<Seq<char>> {
    last_n(series.chapters, WINDOW as nat).map_values(
        |c: ChapterModel| item_text(series, c, rfc2822_of(c.updated_at)),
    )
}

/// The items of all series, series after series.
pub open spec fn all_items(series: Seq<MangaModel>) -> Seq<Seq<char>>
    decreases series.len(),
{
    if series.len() == 0 {
        Seq::empty()
    } else {
        all_items(series.drop_last()) + series_items(series.last())
    }
}

/// The lines of `items` joined by line breaks.
pub open spec fn join_lines(items: Seq<Seq<char>>) -> Seq<char>
    decreases items.len(),
{
    if items.len() == 0 {
        Seq::empty()
    } else if items.len() == 1 {
        items[0]
    } else {
        join_lines(items.drop_last()) + "\n"@ + items.last()
    }
}

/// The whole feed, built at `build_date`, with `items` in the channel.
pub open spec fn feed_text(build_date: Seq<char>, items: Seq<Seq<char>>) -> Seq<char> {
    "<?xml version=\"1.0\" encoding=\"UTF-8\"?>\n<rss version=\"2.0\">\n  <channel>\n    <title>Manga rock</title>\n    <description>Ceci un flux RSS reconstruit pour manga rock</description>\n    <lastBuildDate>"@
        + build_date + "</lastBuildDate>\n    <link>https://mangarock.com/g</link>\n"@
        + join_lines(items) + "\n  </channel>\n</rss>"@
}

/// The feed of `series` built at `now`.
pub open spec fn rss_text(series: Seq<MangaModel>, now: i64) -> Seq<char> {
    feed_text(rfc2822_of(now), all_items(series))
}

/// Every chapter that the feed shows can be dated.
pub open spec fn shown_dates_in_range(series: Seq<MangaModel>) -> bool {
    forall|i: int, j: int|
        0 <= i < series.len() && 0 <= j < last_n(series[i].chapters, WINDOW as nat).len()
            ==> secs_in_range(#[trigger] last_n(series[i].chapters, WINDOW as nat)[j].updated_at)
}

/// The abstract values of a sequence of series.
pub open spec fn views(infos: Seq<MangaInfo>) -> Seq<MangaModel> {
    infos.map_values(|m: MangaInfo| m@)
}

/// The characters of each string of a sequence.
pub open spec fn texts(lines: Seq<String>) -> Seq<Seq<char>> {
    lines.map_values(|s: String| s@)
}

/// Rendering depends on the series and the build time alone: equal inputs
/// give the same text, whenever and however often it is rendered.
pub proof fn lemma_render_is_deterministic(a: Seq<MangaModel>, b: Seq<MangaModel>, now: i64)
    requires
        a == b,
    ensures
        rss_text(a, now) == rss_text(b, now),
{
}

/// The `<item>` element of `chapter` of `manga`, with `pub_date` as its date.
pub fn item_with_date(manga: &MangaInfo, chapter: &ChapterInfo, pub_date: &str) -> (r: String)
    ensures
        r@ == item_text(manga@, chapter@, pub_date@),
{
    let mut r = String::new();
    r.append("    <item>\n      <title>");
    r.append(manga.name.as_str());
    r.append(" - ");
    r.append(chapter.name.as_str());
    r.append("</title>\n      <description>");
    r.append(chapter.name.as_str());
    r.append("</description>\n      <pubDate>");
    r.append(pub_date);
    r.append("</pubDate>\n      <link>https://mangarock.com/manga/");
    r.append(manga.oid.as_str());
    r.append("/chapter/");
    r.append(chapter.oid.as_str());
    r.append("</link>\n    </item>");
    assert(r@ =~= item_text(manga@, chapter@, pub_date@));
    r
}

/// The `<item>` element of `chapter` of `manga`, dated by its update time.
pub fn build_item(manga: &MangaInfo, chapter: &ChapterInfo) -> (r: String)
    requires
        chapter.updated_at.in_range(),
    ensures
        r@ == item_text(manga@, chapter@, rfc2822_of(chapter.updated_at.0)),
{
    let date = chapter.updated_at.to_rfc2822();
    item_with_date(manga, chapter, date.as_str())
}

/// The whole feed document, built at `build_date`, with `items` in the channel.
pub fn feed_document(build_date: &str, items: &Vec<String>) -> (r: String)
    ensures
        r@ == feed_text(build_date@, texts(items@)),
{
    let mut r = String::new();
    r.append("<?xml version=\"1.0\" encoding=\"UTF-8\"?>\n<rss version=\"2.0\">\n  <channel>\n    <title>Manga rock</title>\n    <description>Ceci un flux RSS reconstruit pour manga rock</description>\n    <lastBuildDate>");
    r.append(build_date);
    r.append("</lastBuildDate>\n    <link>https://mangarock.com/g</link>\n");
    let ghost head = r@;
    let mut i: usize = 0;
    while i < items.len()
        invariant
            i <= items@.len(),
            r@ == head + join_lines(texts(items@).subrange(0, i as int)),
        decreases items@.len() - i,
    {
        proof {
            let t = texts(items@);
            assert(t.subrange(0, i + 1).drop_last() =~= t.subrange(0, i as int));
        }
        if i > 0 {
            r.append("\n");
        }
        r.append(items[i].as_str());
        i = i + 1;
    }
    r.append("\n  </channel>\n</rss>");
    assert(texts(items@).subrange(0, items@.len() as int) =~= texts(items@));
    assert(r@ =~= feed_text(build_date@, texts(items@)));
    r
}

/// The selection of `chapters` that the feed shows starts at `window_start`.
proof fn lemma_window_index(chapters: Seq<ChapterModel>, k: int)
    requires
        0 <= k < last_n(chapters, WINDOW as nat).len(),
    ensures
        last_n(chapters, WINDOW as nat).len() == chapters.len() - window_start(
            chapters.len(),
            WINDOW as nat,
        ),
        last_n(chapters, WINDOW as nat)[k] == chapters[window_start(
            chapters.len(),
            WINDOW as nat,
        ) + k],
{
}

/// Whether every chapter that the feed of `infos` shows can be dated.
pub fn rss_dates_in_range(infos: &Vec<MangaInfo>) -> (r: bool)
    ensures
        r == shown_dates_in_range(views(infos@)),
{
    let mut i: usize = 0;
    while i < infos.len()
        invariant
            i <= infos@.len(),
            shown_dates_in_range(views(infos@.subrange(0, i as int))),
        decreases infos@.len() - i,
    {
        let chapters = &infos[i].chapters;
        let len = chapters.len();
        let start: usize = if len < WINDOW { 0 } else { len - WINDOW };
        let ghost m = infos@[i as int]@;
        let mut j: usize = start;
        while j < len
            invariant
                i < infos@.len(),
                chapters == infos@[i as int].chapters,
                m == infos@[i as int]@,
                len == chapters@.len(),
                start == window_start(len as nat, WINDOW as nat),
                start <= j <= len,
                forall|k: int| 0 <= k < j - start ==>
                    secs_in_range(#[trigger] last_n(m.chapters, WINDOW as nat)[k].updated_at),
            decreases len - j,
        {
            let t = chapters[j].updated_at.0;
            proof {
                lemma_window_index(m.chapters, j - start);
            }
            if t < crate::date::MIN_SECS || t > crate::date::MAX_SECS {
                proof {
                    assert(!secs_in_range(last_n(views(infos@)[i as int].chapters, WINDOW as nat)[j - start].updated_at));
                }
                return false;
            }
            j = j + 1;
        }
        proof {
            let vs = views(infos@.subrange(0, i + 1));
            assert forall|a: int, b: int|
                0 <= a < vs.len() && 0 <= b < last_n(vs[a].chapters, WINDOW as nat).len()
                implies secs_in_range(#[trigger] last_n(vs[a].chapters, WINDOW as nat)[b].updated_at) by {
                if a < i {
                    assert(vs[a] == views(infos@.subrange(0, i as int))[a]);
                } else {
                    lemma_window_index(m.chapters, b);
                }
            }
        }
        i = i + 1;
    }
    assert(infos@.subrange(0, infos@.len() as int) =~= infos@);
    true
}

/// The RSS document of `infos`, built at `now`: the last chapters of each
/// series, series after series, each as one item.
pub fn rss_for(infos: &Vec<MangaInfo>, now: Timestamp) -> (r: String)
    requires
        now.in_range(),
        shown_dates_in_range(views(infos@)),
    ensures
        r@ == rss_text(views(infos@), now.0),
{
    let mut items: Vec<String> = Vec::new();
    let mut i: usize = 0;
    while i < infos.len()
        invariant
            i <= infos@.len(),
            shown_dates_in_range(views(infos@)),
            texts(items@) == all_items(views(infos@.subrange(0, i as int))),
        decreases infos@.len() - i,
    {
        let manga = &infos[i];
        let chapters = &manga.chapters;
        let len = chapters.len();
        let start: usize = if len < WINDOW { 0 } else { len - WINDOW };
        let ghost m = infos@[i as int]@;
        let ghost before = all_items(views(infos@.subrange(0, i as int)));
        proof {
            assert(views(infos@)[i as int] == m);
        }
        let mut j: usize = start;
        while j < len
            invariant
                i < infos@.len(),
                manga == infos@[i as int],
                chapters == manga.chapters,
                m == manga@,
                views(infos@)[i as int] == m,
                shown_dates_in_range(views(infos@)),
                len == chapters@.len(),
                start == window_start(len as nat, WINDOW as nat),
                start <= j <= len,
                texts(items@) == before + series_items(m).subrange(0, j - start),
            decreases len - j,
        {
            proof {
                lemma_window_index(m.chapters, j - start);
                assert(chapters@[j as int]@ == m.chapters[j as int]);
                assert(secs_in_range(last_n(views(infos@)[i as int].chapters, WINDOW as nat)[j - start].updated_at));
            }
            let item = build_item(manga, &chapters[j]);
            let ghost old_items = items@;
            items.push(item);
            proof {
                assert(series_items(m)[j - start] == item@);
                assert(texts(items@) =~= texts(old_items).push(item@));
                assert(series_items(m).subrange(0, j + 1 - start) =~= series_items(m).subrange(0, j - start).push(item@));
                assert(texts(items@) =~= before + series_items(m).subrange(0, j + 1 - start));
            }
            j = j + 1;
        }
        proof {
            assert(series_items(m).subrange(0, len - start) =~= series_items(m));
            let vs = views(infos@.subrange(0, i + 1));
            assert(vs.drop_last() =~= views(infos@.subrange(0, i as int)));
            assert(vs.last() == m);
        }
        i = i + 1;
    }
    assert(infos@.subrange(0, infos@.len() as int) =~= infos@);
    let date = now.to_rfc2822();
    feed_document(date.as_str(), &items)
}

} // verus!
