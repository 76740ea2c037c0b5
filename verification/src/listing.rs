//! Cursor-based listing of a folder: which messages a page of files covers,
//! and the state machine that builds a page while messages are fetched one
//! at a time.

use vstd::prelude::*;
use crate::models::{FileMetadata, FilePage, FileView, PageView, files_view};

verus! {

/// Query of the listing request.
pub struct GetFilesParams {
    pub folder_id: Option<i64>,
    pub offset: Option<i32>,
    pub limit: Option<i32>,
}

/// The largest page that is served.
pub open spec fn max_page_limit() -> i32 {
    500
}

/// The offset and limit of a listing request: offset 0 and limit 50 when
/// absent, and never more than 500 files.
pub fn page_bounds(params: &GetFilesParams) -> (res: (i32, i32))
    ensures
        res.0 == match params.offset {
            Some(o) => o,
            None => 0i32,
        },
        res.1 == match params.limit {
            Some(l) => if l < max_page_limit() {
                l
            } else {
                max_page_limit()
            },
            None => 50i32,
        },
{
    let offset = match params.offset {
        Some(o) => o,
        None => 0,
    };
    let limit = match params.limit {
        Some(l) => if l < 500 {
            l
        } else {
            500
        },
        None => 50,
    };
    (offset, limit)
}

/// The files among a run of messages (a message with media is a file), in order.
pub open spec fn files_of(s: Seq<Option<FileView>>) -> Seq<FileView>
    decreases s.len(),
{
    if s.len() == 0 {
        Seq::<FileView>::empty()
    } else {
        let rest = files_of(s.drop_first());
        match s[0] {
            Some(f) => seq![f] + rest,
            None => rest,
        }
    }
}

/// How many messages, from the front of `rest`, are read to collect `l` files:
/// up to and including the `l`-th file, or all of them when there are fewer.
pub open spec fn consumed(rest: Seq<Option<FileView>>, l: int) -> int
    decreases rest.len(),
{
    if l <= 0 || rest.len() == 0 {
        0
    } else {
        1 + consumed(
            rest.drop_first(),
            if rest[0] is Some {
                l - 1
            } else {
                l
            },
        )
    }
}

/// The first message index that a listing at `offset` reads.
pub open spec fn start_of(offset: i32) -> int {
    if offset < 0 {
        0
    } else {
        offset as int
    }
}

/// The page that a listing request answers, over a folder's whole message
/// history `h` (newest first; `Some` for a message with media).
///
/// An offset past the end gives an empty, final page. Otherwise the page
/// holds the files among the messages read from the offset on, which stop
/// after the `limit`-th file or at the end of the history; `has_more` is
/// false exactly when the end was reached, and `next_offset` is the offset
/// plus the number of messages read.
pub open spec fn page_spec(h: Seq<Option<FileView>>, offset: i32, limit: i32) -> PageView {
    if offset > h.len() {
        PageView { files: Seq::empty(), has_more: false, next_offset: offset, total_fetched: 0 }
    } else {
        let rest = h.skip(start_of(offset));
        let k = consumed(rest, limit as int);
        let files = files_of(rest.take(k));
        PageView {
            files: files,
            has_more: !(limit > 0 && files_of(rest).len() < limit),
            next_offset: (offset + k) as i32,
            total_fetched: files.len() as i32,
        }
    }
}

/// The files of a concatenation are the files of each part, in order.
pub proof fn lemma_files_of_append(a: Seq<Option<FileView>>, b: Seq<Option<FileView>>)
    ensures
        files_of(a + b) == files_of(a) + files_of(b),
    decreases a.len(),
{
    if a.len() == 0 {
        assert(a + b =~= b);
        assert(files_of(a) + files_of(b) =~= files_of(b));
    } else {
        assert((a + b).drop_first() =~= a.drop_first() + b);
        lemma_files_of_append(a.drop_first(), b);
        match a[0] {
            Some(f) => {
                assert(seq![f] + (files_of(a.drop_first()) + files_of(b)) =~= (seq![f] + files_of(
                    a.drop_first(),
                )) + files_of(b));
            },
            None => {},
        }
    }
}

/// Appending one message adds its file, if it has one.
pub proof fn lemma_files_of_push(s: Seq<Option<FileView>>, x: Option<FileView>)
    ensures
        files_of(s.push(x)) == match x {
            Some(f) => files_of(s).push(f),
            None => files_of(s),
        },
{
    lemma_files_of_append(s, seq![x]);
    assert(s.push(x) =~= s + seq![x]);
    assert(seq![x].drop_first() =~= Seq::<Option<FileView>>::empty());
    match x {
        Some(f) => {
            assert(files_of(seq![x]) =~= seq![f] + files_of(Seq::<Option<FileView>>::empty()));
            assert(files_of(s) + seq![f] =~= files_of(s).push(f));
        },
        None => {
            assert(files_of(Seq::<Option<FileView>>::empty()) =~= Seq::<FileView>::empty());
            assert(files_of(seq![x]) =~= files_of(seq![x].drop_first()));
            assert(files_of(s) + files_of(seq![x]) =~= files_of(s));
        },
    }
}

proof fn lemma_consumed_all(rest: Seq<Option<FileView>>, l: int)
    requires
        files_of(rest).len() < l,
    ensures
        consumed(rest, l) == rest.len(),
    decreases rest.len(),
{
    if rest.len() > 0 {
        let l2 = if rest[0] is Some {
            l - 1
        } else {
            l
        };
        lemma_consumed_all(rest.drop_first(), l2);
    }
}

proof fn lemma_consumed_exact(rest: Seq<Option<FileView>>, l: int, n: int)
    requires
        0 < n <= rest.len(),
        rest[n - 1] is Some,
        files_of(rest.take(n)).len() == l,
    ensures
        consumed(rest, l) == n,
    decreases n,
{
    let t = rest.take(n);
    assert(t.drop_first() =~= rest.drop_first().take(n - 1));
    lemma_files_of_push(rest.take(n - 1), rest[n - 1]);
    assert(rest.take(n - 1).push(rest[n - 1]) =~= t);
    assert(l >= 1);
    assert(t[0] == rest[0]);
    assert(files_of(t) == match rest[0] {
        Some(f) => seq![f] + files_of(t.drop_first()),
        None => files_of(t.drop_first()),
    });
    if n == 1 {
        assert(rest.drop_first().take(0) =~= Seq::<Option<FileView>>::empty());
        assert(files_of(Seq::<Option<FileView>>::empty()) =~= Seq::<FileView>::empty());
        assert(l == 1);
        assert(consumed(rest.drop_first(), 0) == 0);
    } else {
        let l2 = if rest[0] is Some {
            l - 1
        } else {
            l
        };
        assert(rest.drop_first()[n - 2] == rest[n - 1]);
        lemma_files_of_push(rest.drop_first().take(n - 2), rest[n - 1]);
        assert(rest.drop_first().take(n - 2).push(rest[n - 1]) =~= rest.drop_first().take(n - 1));
        lemma_consumed_exact(rest.drop_first(), l2, n - 1);
    }
}

proof fn lemma_files_of_prefix_len(s: Seq<Option<FileView>>, n: int)
    requires
        0 <= n <= s.len(),
    ensures
        files_of(s.take(n)).len() <= files_of(s).len(),
{
    lemma_files_of_append(s.take(n), s.skip(n));
    assert(s.take(n) + s.skip(n) =~= s);
}

/// Successive pages neither skip nor repeat a file: the files of a page,
/// followed by every file from its `next_offset` on, are every file from
/// its offset on. This holds of every page whose `next_offset` fits in an
/// `i32` (the listing cannot serve the others: the offset would overflow).
pub proof fn law_pages_partition(h: Seq<Option<FileView>>, offset: i32, limit: i32)
    requires
        0 <= offset <= h.len(),
        offset as int + consumed(h.skip(offset as int), limit as int) <= i32::MAX,
    ensures
        page_spec(h, offset, limit).files + files_of(h.skip(
            page_spec(h, offset, limit).next_offset as int,
        )) == files_of(h.skip(offset as int)),
        offset <= page_spec(h, offset, limit).next_offset <= h.len(),
        page_spec(h, offset, limit).total_fetched == page_spec(h, offset, limit).files.len(),
        limit > 0 ==> page_spec(h, offset, limit).files.len() <= limit,
{
    let rest = h.skip(offset as int);
    let k = consumed(rest, limit as int);
    lemma_consumed_bounds(rest, limit as int);
    lemma_files_of_append(rest.take(k), rest.skip(k));
    assert(rest.take(k) + rest.skip(k) =~= rest);
    assert(rest.skip(k) =~= h.skip(offset + k));
    lemma_consumed_files(rest, limit as int);
}

/// Two pages in a row hold the first files from the first page's offset on,
/// in order, without a gap or a repeat.
pub proof fn law_two_pages(h: Seq<Option<FileView>>, offset: i32, limit: i32)
    requires
        0 <= offset <= h.len(),
        offset as int + consumed(h.skip(offset as int), limit as int) <= i32::MAX,
        page_spec(h, offset, limit).next_offset as int + consumed(
            h.skip(page_spec(h, offset, limit).next_offset as int),
            limit as int,
        ) <= i32::MAX,
    ensures
        page_spec(h, offset, limit).files + page_spec(
            h,
            page_spec(h, offset, limit).next_offset,
            limit,
        ).files == files_of(h.skip(offset as int)).take(
            (page_spec(h, offset, limit).files.len() + page_spec(
                h,
                page_spec(h, offset, limit).next_offset,
                limit,
            ).files.len()) as int,
        ),
{
    let p1 = page_spec(h, offset, limit);
    let n = p1.next_offset;
    law_pages_partition(h, offset, limit);
    let rest2 = h.skip(n as int);
    let k2 = consumed(rest2, limit as int);
    lemma_consumed_bounds(rest2, limit as int);
    lemma_files_of_append(rest2.take(k2), rest2.skip(k2));
    assert(rest2.take(k2) + rest2.skip(k2) =~= rest2);
    let p2 = page_spec(h, n, limit);
    assert(p2.files == files_of(rest2.take(k2)));
    let f = files_of(h.skip(offset as int));
    assert(f == p1.files + (p2.files + files_of(rest2.skip(k2))));
    assert((p1.files + p2.files) =~= f.take((p1.files.len() + p2.files.len()) as int));
}

proof fn lemma_consumed_bounds(rest: Seq<Option<FileView>>, l: int)
    ensures
        0 <= consumed(rest, l) <= rest.len(),
    decreases rest.len(),
{
    if l > 0 && rest.len() > 0 {
        let l2 = if rest[0] is Some {
            l - 1
        } else {
            l
        };
        lemma_consumed_bounds(rest.drop_first(), l2);
    }
}

proof fn lemma_consumed_files(rest: Seq<Option<FileView>>, l: int)
    ensures
        l > 0 ==> files_of(rest.take(consumed(rest, l))).len() <= l,
        l <= 0 ==> files_of(rest.take(consumed(rest, l))).len() == 0,
    decreases rest.len(),
{
    if l <= 0 || rest.len() == 0 {
        assert(rest.take(0) =~= Seq::<Option<FileView>>::empty());
    } else {
        let l2 = if rest[0] is Some {
            l - 1
        } else {
            l
        };
        let r2 = rest.drop_first();
        lemma_consumed_files(r2, l2);
        lemma_consumed_bounds(r2, l2);
        let k2 = consumed(r2, l2);
        assert(rest.take(1 + k2).drop_first() =~= r2.take(k2));
    }
}


/// What the listing learns of one fetch: `None` when the history has no more
/// messages, else whether the message carries a file and which.
pub open spec fn event_view(ev: Option<Option<FileMetadata>>) -> Option<Option<FileView>> {
    match ev {
        None => None,
        Some(None) => Some(None),
        Some(Some(f)) => Some(Some(f@)),
    }
}

/// The fetches made so far agree with the history `h`: every fetch before
/// the end returned a message, the message itself as `h` has it from the
/// first index that the listing reads, and a fetch at the end returned `None`.
pub open spec fn consistent(
    evs: Seq<Option<Option<FileView>>>,
    h: Seq<Option<FileView>>,
    offset: i32,
) -> bool {
    &&& evs.len() <= h.len() + 1
    &&& forall|j: int|
        #![trigger evs[j]]
        0 <= j < evs.len() && j < h.len() ==> evs[j] is Some && (j >= start_of(offset)
            ==> evs[j]->0 == h[j])
    &&& forall|j: int| #![trigger evs[j]] 0 <= j < evs.len() && j == h.len() ==> evs[j] is None
}

/// The messages read while collecting: `seen` of them from index `st`.
pub open spec fn collected(evs: Seq<Option<Option<FileView>>>, st: int, seen: int) -> Seq<
    Option<FileView>,
> {
    evs.subrange(st, st + seen).map_values(|e: Option<Option<FileView>>| e->0)
}

/// Builds one listing page while the caller fetches the folder's messages
/// one at a time: first the `offset` messages to skip, then messages until
/// `limit` files were collected or the history ends.
pub struct FilePager {
    offset: i32,
    limit: i32,
    skipped: i32,
    seen: i32,
    files: Vec<FileMetadata>,
    collecting: bool,
    done: bool,
    hit_end: bool,
    events: Ghost<Seq<Option<Option<FileView>>>>,
}

impl FilePager {
    /// The pager's state agrees with the fetches reported to it.
    pub closed spec fn wf(&self) -> bool {
        let evs = self.events@;
        let st = start_of(self.offset);
        &&& 0 <= self.skipped
        &&& 0 <= self.seen
        &&& if !self.collecting {
            &&& self.offset > 0
            &&& self.skipped < self.offset
            &&& self.seen == 0
            &&& self.files@.len() == 0
            &&& !self.hit_end
            &&& evs.len() == self.skipped + (if self.done {
                1int
            } else {
                0int
            })
            &&& forall|j: int| #![trigger evs[j]] 0 <= j < self.skipped ==> evs[j] is Some
            &&& self.done ==> evs[self.skipped as int] is None
        } else {
            let c = collected(evs, st, self.seen as int);
            &&& self.skipped == st
            &&& st + self.seen <= i32::MAX
            &&& evs.len() == st + self.seen + (if self.done && self.hit_end {
                1int
            } else {
                0int
            })
            &&& forall|j: int| #![trigger evs[j]] 0 <= j < st + self.seen ==> evs[j] is Some
            &&& files_view(self.files@) == files_of(c)
            &&& self.hit_end ==> self.done && evs[st + self.seen] is None
            &&& (!self.done || self.hit_end) ==> self.files@.len() < self.limit
            &&& (self.done && !self.hit_end) ==> if self.limit > 0 {
                &&& self.files@.len() == self.limit
                &&& self.seen > 0
                &&& c.last() is Some
            } else {
                self.seen == 0
            }
        }
    }

    /// The fetches reported so far, in order.
    pub closed spec fn events(&self) -> Seq<Option<Option<FileView>>> {
        self.events@
    }

    /// The offset the page starts at.
    pub closed spec fn offset_spec(&self) -> i32 {
        self.offset
    }

    /// The most files the page holds.
    pub closed spec fn limit_spec(&self) -> i32 {
        self.limit
    }

    /// The page is complete: no more messages are needed.
    pub closed spec fn done_spec(&self) -> bool {
        self.done
    }

    /// A pager for a page at `offset` holding at most `limit` files.
    pub fn new(offset: i32, limit: i32) -> (res: Self)
        ensures
            res.events() == Seq::<Option<Option<FileView>>>::empty(),
            res.offset_spec() == offset,
            res.limit_spec() == limit,
            res.done_spec() == (offset <= 0 && limit <= 0),
            res.wf(),
    {
        let collecting = offset <= 0;
        let done = collecting && !(0 < limit);
        let res = FilePager {
            offset,
            limit,
            skipped: 0,
            seen: 0,
            files: Vec::new(),
            collecting,
            done,
            hit_end: false,
            events: Ghost(Seq::empty()),
        };
        proof {
            assert(collected(Seq::<Option<Option<FileView>>>::empty(), 0, 0) =~= Seq::<
                Option<FileView>,
            >::empty());
            assert(files_view(res.files@) =~= Seq::<FileView>::empty());
            assert(files_of(Seq::<Option<FileView>>::empty()) =~= Seq::<FileView>::empty());
        }
        res
    }

    /// Whether the page is complete.
    pub fn is_done(&self) -> (res: bool)
        ensures
            res == self.done_spec(),
    {
        self.done
    }

    /// How many messages have been fetched so far (the page is not complete).
    pub fn messages_read(&self) -> (res: i64)
        requires
            self.wf(),
            !self.done_spec(),
        ensures
            res == self.events().len(),
    {
        self.skipped as i64 + self.seen as i64
    }

    /// Reports one fetch: `None` when the history has no more messages, else
    /// the message's file (`None` for a message without media). While
    /// skipping, only whether a message came matters.
    pub fn feed(&mut self, ev: Option<Option<FileMetadata>>)
        requires
            old(self).wf(),
            !old(self).done_spec(),
            old(self).events().len() < i32::MAX,
        ensures
            final(self).wf(),
            final(self).events() == old(self).events().push(event_view(ev)),
            final(self).offset_spec() == old(self).offset_spec(),
            final(self).limit_spec() == old(self).limit_spec(),
    {
        let ghost old_evs = self.events@;
        let ghost evv = event_view(ev);
        let ghost st = start_of(self.offset);
        if !self.collecting {
            match ev {
                None => {
                    self.done = true;
                    self.events = Ghost(old_evs.push(evv));
                    proof {
                        assert forall|j: int| 0 <= j < self.skipped implies #[trigger] self.events@[j]
                            is Some by {
                            assert(self.events@[j] == old_evs[j]);
                        }
                    }
                },
                Some(_) => {
                    self.skipped = self.skipped + 1;
                    self.events = Ghost(old_evs.push(evv));
                    if self.skipped == self.offset {
                        self.collecting = true;
                        self.done = !(0 < self.limit);
                        proof {
                            assert(collected(self.events@, st, 0) =~= Seq::<Option<FileView>>::empty());
                            assert(files_view(self.files@) =~= Seq::<FileView>::empty());
                            assert(files_of(Seq::<Option<FileView>>::empty()) =~= Seq::<
                                FileView,
                            >::empty());
                        }
                    }
                    proof {
                        assert forall|j: int| 0 <= j < self.skipped implies #[trigger] self.events@[j]
                            is Some by {
                            if j < self.skipped - 1 {
                                assert(self.events@[j] == old_evs[j]);
                            }
                        }
                    }
                },
            }
        } else {
            let ghost old_c = collected(old_evs, st, self.seen as int);
            let ghost old_files = self.files@;
            match ev {
                None => {
                    self.hit_end = true;
                    self.done = true;
                    self.events = Ghost(old_evs.push(evv));
                    proof {
                        assert(collected(self.events@, st, self.seen as int) =~= old_c);
                        assert forall|j: int| 0 <= j < st + self.seen implies #[trigger] self.events@[j]
                            is Some by {
                            assert(self.events@[j] == old_evs[j]);
                        }
                    }
                },
                Some(m) => {
                    let ghost mv = match evv {
                        Some(x) => x,
                        None => None::<FileView>,
                    };
                    self.seen = self.seen + 1;
                    self.events = Ghost(old_evs.push(evv));
                    match m {
                        Some(f) => {
                            self.files.push(f);
                        },
                        None => {},
                    }
                    proof {
                        let c = collected(self.events@, st, self.seen as int);
                        assert(c =~= old_c.push(mv));
                        lemma_files_of_push(old_c, mv);
                        match mv {
                            Some(fv) => {
                                assert(files_view(self.files@) =~= files_view(old_files).push(fv));
                            },
                            None => {},
                        }
                        assert forall|j: int| 0 <= j < st + self.seen implies #[trigger] self.events@[j]
                            is Some by {
                            if j < st + self.seen - 1 {
                                assert(self.events@[j] == old_evs[j]);
                            }
                        }
                    }
                    self.done = !(self.files.len() < self.limit as usize);
                },
            }
        }
    }

    /// The finished page. Whatever the folder's history `h` is, as long as
    /// the fetches reported agree with it, the page is `page_spec(h, offset, limit)`.
    pub fn finish(self) -> (res: FilePage)
        requires
            self.wf(),
            self.done_spec(),
        ensures
            forall|h: Seq<Option<FileView>>|
                consistent(self.events(), h, self.offset_spec()) ==> res@ == page_spec(
                    h,
                    self.offset_spec(),
                    self.limit_spec(),
                ),
    {
        let ghost evs = self.events@;
        let ghost st = start_of(self.offset);
        let ghost seen = self.seen as int;
        if !self.collecting {
            let res = FilePage { files: Vec::new(), has_more: false, next_offset: self.offset, total_fetched: 0 };
            proof {
                assert forall|h: Seq<Option<FileView>>|
                    consistent(evs, h, self.offset) implies res@ == page_spec(
                    h,
                    self.offset,
                    self.limit,
                ) by {
                    let k = self.skipped as int;
                    assert(evs[k] is None);
                    if k < h.len() {
                        assert(evs[k] is Some);
                    }
                    assert(files_view(res.files@) =~= Seq::<FileView>::empty());
                }
            }
            res
        } else {
            let files_len = self.files.len();
            let next_offset = self.offset + self.seen;
            let has_more = !self.hit_end;
            let ghost fv = files_view(self.files@);
            let res = FilePage {
                files: self.files,
                has_more,
                next_offset,
                total_fetched: files_len as i32,
            };
            proof {
                let c = collected(evs, st, seen);
                assert forall|h: Seq<Option<FileView>>|
                    consistent(evs, h, self.offset) implies res@ == page_spec(
                    h,
                    self.offset,
                    self.limit,
                ) by {
                    if seen > 0 {
                        let j = st + seen - 1;
                        assert(evs[j] is Some);
                        if j >= h.len() {
                            assert(j == h.len());
                        }
                    }
                    if seen == 0 && st > 0 {
                        assert(evs[st - 1] is Some);
                        if st - 1 >= h.len() {
                            assert(st - 1 == h.len());
                        }
                    }
                    assert(st + seen <= h.len());
                    let rest = h.skip(st);
                    assert(c =~= rest.take(seen)) by {
                        assert forall|i: int| 0 <= i < seen implies #[trigger] c[i] == rest.take(
                            seen,
                        )[i] by {
                            assert(evs[st + i] is Some);
                        }
                    }
                    if self.hit_end {
                        assert(evs[st + seen] is None);
                        if st + seen < h.len() {
                            assert(evs[st + seen] is Some);
                        }
                        assert(rest =~= rest.take(seen));
                        lemma_consumed_all(rest, self.limit as int);
                    } else if self.limit > 0 {
                        assert(rest.take(seen)[seen - 1] == c.last());
                        lemma_consumed_exact(rest, self.limit as int, seen);
                        lemma_files_of_prefix_len(rest, seen);
                    } else {
                        assert(rest.take(0) =~= c);
                    }
                }
            }
            res
        }
    }
}

} // verus!
