//! Properties of SMBIOS string pools and of the record manager that span
//! several operations.

use crate::smbios::smbios_derive::{
    SmbiosManager, record_counted, SmbiosRecord, SMBIOS_STRING_MAX_LENGTH, SmbiosError, SmbiosTableHeader, first_free_from, first_zero,
    handle_in_use, index_of_handle, pool_body_result, pool_bytes, pool_result, pool_strings,
    pool_strings_from, record_strings_result, terminated, updated_pool, lossy_all, utf8_lossy,
};
use crate::smbios::smbios_record::{SmbiosRecordStructure, pool_views};
use vstd::prelude::*;

verus! {

/// A string that a string pool can hold and give back: non-empty, at most 64
/// bytes, without a null byte.
pub open spec fn pool_string_ok(s: Seq<u8>) -> bool {
    0 < s.len() <= SMBIOS_STRING_MAX_LENGTH && !s.contains(0)
}

/// Every string of the list can be held by a string pool.
pub open spec fn pool_strings_ok(ss: Seq<Seq<u8>>) -> bool {
    forall|i: int| 0 <= i < ss.len() ==> #[trigger] pool_string_ok(ss[i])
}

/// No two records carry the same handle.
pub open spec fn unique_handles(records: Seq<SmbiosRecord>) -> bool {
    forall|i: int, j: int|
        0 <= i < records.len() && 0 <= j < records.len() && i != j ==> records[i].header.handle
            != records[j].header.handle
}

/// A string that a string pool gives back as it was: not empty and
/// without a null byte.
pub open spec fn string_readable(s: Seq<u8>) -> bool {
    s.len() > 0 && !s.contains(0)
}

/// Every string of the list reads back from a string pool.
pub open spec fn strings_readable(ss: Seq<Seq<u8>>) -> bool {
    forall|i: int| 0 <= i < ss.len() ==> #[trigger] string_readable(ss[i])
}

/// Each string followed by a null byte, built from the front.
spec fn front_terminated(ss: Seq<Seq<u8>>) -> Seq<u8>
    decreases ss.len(),
{
    if ss.len() == 0 {
        Seq::empty()
    } else {
        ss[0] + seq![0u8] + front_terminated(ss.drop_first())
    }
}

proof fn lemma_front_terminated(ss: Seq<Seq<u8>>)
    ensures
        terminated(ss) == front_terminated(ss),
    decreases ss.len(),
{
    if ss.len() > 0 {
        lemma_front_terminated(ss.drop_last());
        if ss.len() == 1 {
            assert(ss.drop_last() =~= Seq::<Seq<u8>>::empty());
            assert(ss.drop_first() =~= Seq::<Seq<u8>>::empty());
            assert(terminated(ss) =~= front_terminated(ss));
        } else {
            lemma_front_terminated(ss.drop_first());
            lemma_front_terminated(ss.drop_first().drop_last());
            assert(ss.drop_last().drop_first() =~= ss.drop_first().drop_last());
            assert(ss.drop_first().last() == ss.last());
            assert(ss.drop_last()[0] == ss[0]);
            assert(terminated(ss) =~= front_terminated(ss));
        }
    }
}

proof fn lemma_first_zero_prefix(s: Seq<u8>, t: Seq<u8>)
    requires
        !s.contains(0),
    ensures
        first_zero(s + seq![0u8] + t) == s.len(),
        first_zero(s) == s.len(),
    decreases s.len(),
{
    if s.len() > 0 {
        assert(s[0] != 0) by {
            if s[0] == 0 {
                assert(s.contains(0));
            }
        }
        assert(!s.drop_first().contains(0)) by {
            if s.drop_first().contains(0) {
                let k = choose|k: int| 0 <= k < s.drop_first().len() && s.drop_first()[k] == 0;
                assert(s[k + 1] == 0);
            }
        }
        lemma_first_zero_prefix(s.drop_first(), t);
        assert((s + seq![0u8] + t).drop_first() =~= s.drop_first() + seq![0u8] + t);
    }
}

/// Body of the pool of a non-empty list: the strings joined by single nulls.
spec fn joined(ss: Seq<Seq<u8>>) -> Seq<u8>
    decreases ss.len(),
{
    if ss.len() <= 1 {
        if ss.len() == 1 {
            ss[0]
        } else {
            Seq::empty()
        }
    } else {
        ss[0] + seq![0u8] + joined(ss.drop_first())
    }
}

proof fn lemma_joined_front(ss: Seq<Seq<u8>>)
    requires
        ss.len() > 0,
    ensures
        front_terminated(ss) == joined(ss) + seq![0u8],
    decreases ss.len(),
{
    if ss.len() == 1 {
        assert(ss.drop_first() =~= Seq::<Seq<u8>>::empty());
        assert(front_terminated(ss.drop_first()) =~= Seq::<u8>::empty());
        assert(front_terminated(ss) =~= joined(ss) + seq![0u8]);
    } else {
        let rest = ss.drop_first();
        lemma_joined_front(rest);
        assert(front_terminated(ss) == ss[0] + seq![0u8] + front_terminated(rest));
        assert(joined(ss) == ss[0] + seq![0u8] + joined(rest));
        assert((ss[0] + seq![0u8] + joined(rest)) + seq![0u8] =~= ss[0] + seq![0u8] + (joined(rest)
            + seq![0u8]));
    }
}

proof fn lemma_body_of_joined(ss: Seq<Seq<u8>>)
    requires
        ss.len() > 0,
        pool_strings_ok(ss),
    ensures
        pool_body_result(joined(ss)) == Ok::<nat, SmbiosError>(ss.len()),
    decreases ss.len(),
{
    let s = ss[0];
    assert(pool_string_ok(s));
    let p = joined(ss);
    if ss.len() == 1 {
        lemma_first_zero_prefix(s, Seq::empty());
        assert(p == s);
        assert(first_zero(p) == p.len());
        assert(p.subrange(p.len() as int, p.len() as int) =~= Seq::<u8>::empty());
        assert(pool_body_result(Seq::<u8>::empty()) == Ok::<nat, SmbiosError>(0));
    } else {
        let rest = ss.drop_first();
        assert(pool_strings_ok(rest)) by {
            assert forall|i: int| 0 <= i < rest.len() implies #[trigger] pool_string_ok(rest[i]) by {
                assert(rest[i] == ss[i + 1]);
                assert(pool_string_ok(ss[i + 1]));
            }
        }
        lemma_first_zero_prefix(s, joined(rest));
        lemma_body_of_joined(rest);
        assert(p == s + seq![0u8] + joined(rest));
        assert(first_zero(p) == s.len());
        assert(p.subrange(s.len() + 1int, p.len() as int) =~= joined(rest));
    }
}

proof fn lemma_scan_run(q: Seq<u8>, i: int, j: int, cur: Seq<u8>, n: int)
    requires
        0 <= i < j <= q.len(),
        forall|k: int| i <= k < j ==> q[k] != 0,
    ensures
        pool_strings_from(q, i, cur, n) == pool_strings_from(q, j, cur + q.subrange(i, j), 0),
    decreases j - i,
{
    if i + 1 == j {
        assert(cur.push(q[i]) =~= cur + q.subrange(i, j));
    } else {
        lemma_scan_run(q, i + 1, j, cur.push(q[i]), 0);
        assert(cur.push(q[i]) + q.subrange(i + 1, j) =~= cur + q.subrange(i, j));
    }
}

proof fn lemma_scan_pool(q: Seq<u8>, off: int, ss: Seq<Seq<u8>>, n: int)
    requires
        0 <= off <= q.len(),
        n == 0 || n == 1,
        q.subrange(off, q.len() as int) == front_terminated(ss) + seq![0u8],
        strings_readable(ss),
    ensures
        pool_strings_from(q, off, Seq::empty(), n) == ss,
    decreases ss.len(),
{
    if ss.len() == 0 {
        assert(front_terminated(ss) =~= Seq::<u8>::empty());
        assert(q.subrange(off, q.len() as int) =~= seq![0u8]);
        assert(q[off] == q.subrange(off, q.len() as int)[0]);
        assert(q.len() == off + 1);
        assert(pool_strings_from(q, off + 1, Seq::empty(), n + 1) =~= Seq::<Seq<u8>>::empty());
        assert(pool_strings_from(q, off, Seq::empty(), n) =~= ss);
    } else {
        let s = ss[0];
        let rest = ss.drop_first();
        assert(string_readable(s));
        assert(strings_readable(rest)) by {
            assert forall|i: int| 0 <= i < rest.len() implies #[trigger] string_readable(rest[i]) by {
                assert(rest[i] == ss[i + 1]);
                assert(string_readable(ss[i + 1]));
            }
        }
        let tail = q.subrange(off, q.len() as int);
        assert(tail =~= s + seq![0u8] + (front_terminated(rest) + seq![0u8]));
        let end = off + s.len();
        assert forall|k: int| off <= k < end implies q[k] != 0 by {
            assert(q[k] == tail[k - off]);
            assert(tail[k - off] == s[k - off]);
            if s[k - off] == 0 {
                assert(s.contains(0));
            }
        }
        lemma_scan_run(q, off, end, Seq::empty(), n);
        assert(q.subrange(off, end) =~= s);
        assert(q[end] == tail[s.len() as int]);
        assert(Seq::<u8>::empty() + s =~= s);
        assert(tail.subrange(s.len() + 1int, tail.len() as int) =~= front_terminated(rest) + seq![
            0u8,
        ]);
        assert(q.subrange(end + 1, q.len() as int) =~= tail.subrange(
            s.len() + 1int,
            tail.len() as int,
        ));
        lemma_scan_pool(q, end + 1, rest, 1);
        assert(seq![s] + rest =~= ss);
    }
}

/// A string pool written from a list of strings that a pool can hold is
/// accepted, counts one string per entry, and reads back as the same list.
pub proof fn law_pool_roundtrip(ss: Seq<Seq<u8>>)
    requires
        pool_strings_ok(ss),
    ensures
        pool_result(pool_bytes(ss)) == Ok::<nat, SmbiosError>(ss.len()),
        pool_strings(pool_bytes(ss)) == ss,
{
    let p = pool_bytes(ss);
    if ss.len() == 0 {
        assert(p.take(0) =~= Seq::<u8>::empty());
        assert(pool_strings_from(p, 1, Seq::empty(), 1) =~= Seq::<Seq<u8>>::empty());
        assert(pool_strings(p) =~= ss);
    } else {
        lemma_front_terminated(ss);
        lemma_joined_front(ss);
        assert(p =~= joined(ss) + seq![0u8, 0u8]);
        assert(p.take(p.len() - 2) =~= joined(ss));
        lemma_body_of_joined(ss);
        assert(p == terminated(ss) + seq![0u8]);
        assert(terminated(ss) == front_terminated(ss));
        assert(p == front_terminated(ss) + seq![0u8]);
        assert(p.subrange(0, p.len() as int) =~= p);
        assert(strings_readable(ss)) by {
            assert forall|i: int| 0 <= i < ss.len() implies #[trigger] string_readable(ss[i]) by {
                assert(pool_string_ok(ss[i]));
            }
        }
        lemma_scan_pool(p, 0, ss, 0);
    }
}

/// The image of a record made of a header, structured data and a pool of
/// strings that a pool can hold counts as a record with that many strings,
/// provided the header's length covers exactly the header and the data.
pub proof fn law_record_image_strings(
    header: SmbiosTableHeader,
    data: Seq<u8>,
    ss: Seq<Seq<u8>>,
)
    requires
        header.length == 4 + data.len(),
        pool_strings_ok(ss),
    ensures
        record_strings_result(header.spec_bytes() + data + pool_bytes(ss)) == Ok::<
            nat,
            SmbiosError,
        >(ss.len()),
{
    let image = header.spec_bytes() + data + pool_bytes(ss);
    law_pool_roundtrip(ss);
    assert(image[1] == header.length);
    assert(image.skip(image[1] as int) =~= pool_bytes(ss));
}

/// After a record with a freshly assigned handle is appended, the handle
/// finds exactly that record.
pub proof fn law_added_record_found(
    records: Seq<SmbiosRecord>,
    start: int,
    h: int,
    rec: SmbiosRecord,
)
    requires
        first_free_from(records, start, h),
        rec.header.handle == h,
    ensures
        index_of_handle(records.push(rec), h) == records.len(),
        handle_in_use(records.push(rec), h),
{
    let new = records.push(rec);
    lemma_index_of(new, h, records.len() as int);
    assert(new[records.len() as int] == rec);
}

proof fn lemma_index_of(records: Seq<SmbiosRecord>, h: int, i: int)
    requires
        0 <= i < records.len(),
        forall|j: int| 0 <= j < i ==> records[j].header.handle != h,
        records[i].header.handle == h,
    ensures
        index_of_handle(records, h) == i,
    decreases i,
{
    if i > 0 {
        lemma_index_of(records.drop_first(), h, i - 1);
    }
}

/// Removing the record carrying a freshly added handle gives back the records
/// as they were before the addition.
pub proof fn law_remove_undoes_add(records: Seq<SmbiosRecord>, start: int, h: int, rec: SmbiosRecord)
    requires
        first_free_from(records, start, h),
        rec.header.handle == h,
    ensures
        records.push(rec).remove(index_of_handle(records.push(rec), h)) == records,
{
    law_added_record_found(records, start, h, rec);
    assert(records.push(rec).remove(records.len() as int) =~= records);
}

/// Appending a record under a freshly assigned handle keeps handles unique.
pub proof fn law_add_keeps_handles_unique(
    records: Seq<SmbiosRecord>,
    start: int,
    h: int,
    rec: SmbiosRecord,
)
    requires
        unique_handles(records),
        first_free_from(records, start, h),
        rec.header.handle == h,
    ensures
        unique_handles(records.push(rec)),
{
    let new = records.push(rec);
    assert forall|i: int, j: int|
        0 <= i < new.len() && 0 <= j < new.len() && i != j implies new[i].header.handle
        != new[j].header.handle by {
        if i == records.len() && j < records.len() {
            assert(new[j] == records[j]);
        } else if j == records.len() && i < records.len() {
            assert(new[i] == records[i]);
        } else {
            assert(new[i] == records[i]);
            assert(new[j] == records[j]);
        }
    }
}

/// Removing a record keeps handles unique, and when handles were unique the
/// removed handle is no longer in use.
pub proof fn law_remove_keeps_handles_unique(records: Seq<SmbiosRecord>, h: int)
    requires
        unique_handles(records),
        index_of_handle(records, h) >= 0,
    ensures
        unique_handles(records.remove(index_of_handle(records, h))),
        !handle_in_use(records.remove(index_of_handle(records, h)), h),
{
    let i = index_of_handle(records, h);
    lemma_index_found(records, h);
    let new = records.remove(i);
    assert forall|a: int, b: int|
        0 <= a < new.len() && 0 <= b < new.len() && a != b implies new[a].header.handle
        != new[b].header.handle by {
        let ra = if a < i {
            a
        } else {
            a + 1
        };
        let rb = if b < i {
            b
        } else {
            b + 1
        };
        assert(new[a] == records[ra]);
        assert(new[b] == records[rb]);
    }
    if handle_in_use(new, h) {
        let a = choose|a: int| 0 <= a < new.len() && new[a].header.handle == h;
        let ra = if a < i {
            a
        } else {
            a + 1
        };
        assert(new[a] == records[ra]);
    }
}

/// In a manager whose handles are unique, a handle whose record was
/// removed is found no more, so removing it again fails with
/// `HandleNotFound`.
pub proof fn law_removed_handle_not_found(records: Seq<SmbiosRecord>, h: int)
    requires
        unique_handles(records),
        index_of_handle(records, h) >= 0,
    ensures
        index_of_handle(records.remove(index_of_handle(records, h)), h) < 0,
{
    law_remove_keeps_handles_unique(records, h);
    let rest = records.remove(index_of_handle(records, h));
    if index_of_handle(rest, h) >= 0 {
        lemma_index_found(rest, h);
        assert(handle_in_use(rest, h));
    }
}

proof fn lemma_index_found(records: Seq<SmbiosRecord>, h: int)
    requires
        index_of_handle(records, h) >= 0,
    ensures
        index_of_handle(records, h) < records.len(),
        records[index_of_handle(records, h)].header.handle == h,
    decreases records.len(),
{
    if records.len() > 0 && records[0].header.handle != h {
        lemma_index_found(records.drop_first(), h);
    }
}

/// A typed record whose strings a string pool can hold serializes (its
/// structured part followed by its string pool, as `to_bytes` writes it) to
/// an image that `add_from_bytes` accepts: it holds its header and an empty
/// pool at least, and its string pool is well formed, with as many strings
/// as the record.
pub proof fn law_serialized_record_accepted<T: SmbiosRecordStructure>(t: &T)
    requires
        pool_strings_ok(pool_views(t.spec_string_pool())),
    ensures
        ({
            let d = t.spec_structured_bytes() + pool_bytes(pool_views(t.spec_string_pool()));
            &&& d.len() >= 4
            &&& d[1] + 2 <= d.len()
            &&& pool_result(d.skip(d[1] as int)) == Ok::<nat, SmbiosError>(t.spec_string_pool().len())
        }),
{
    t.lemma_structured_layout();
    let st = t.spec_structured_bytes();
    let views = pool_views(t.spec_string_pool());
    let d = st + pool_bytes(views);
    law_pool_roundtrip(views);
    assert(pool_bytes(views).len() >= 2);
    assert(d[1] == st[1]);
    assert(d.skip(d[1] as int) =~= pool_bytes(views));
}

/// After string `n` of a record is replaced, its string pool reads back as
/// the new string at `n` and the other strings as they were decoded, where
/// all of them can be held by a string pool.
pub proof fn law_updated_pool_reads_back(old_pool: Seq<u8>, n: int, new_string: Seq<u8>)
    requires
        1 <= n <= pool_strings(old_pool).len(),
        pool_strings_ok(lossy_all(pool_strings(old_pool)).update(n - 1, new_string)),
    ensures
        pool_strings(updated_pool(old_pool, n, new_string)) == lossy_all(pool_strings(old_pool)).update(
            n - 1,
            new_string,
        ),
{
    let ss = lossy_all(pool_strings(old_pool)).update(n - 1, new_string);
    assert(ss.len() > 0);
    assert(updated_pool(old_pool, n, new_string) == pool_bytes(ss));
    law_pool_roundtrip(ss);
}

proof fn lemma_first_zero_props(s: Seq<u8>)
    ensures
        0 <= first_zero(s) <= s.len(),
        forall|j: int| 0 <= j < first_zero(s) ==> s[j] != 0,
        first_zero(s) == s.len() || s[first_zero(s)] == 0,
    decreases s.len(),
{
    if s.len() > 0 && s[0] != 0 {
        lemma_first_zero_props(s.drop_first());
        assert forall|j: int| 0 <= j < first_zero(s) implies s[j] != 0 by {
            if j > 0 {
                assert(s[j] == s.drop_first()[j - 1]);
            }
        }
    }
}

proof fn lemma_read_run(p: Seq<u8>, i: int, cur: Seq<u8>, nulls: int, m: int)
    requires
        0 <= i,
        0 < m,
        i + m <= p.len(),
        forall|t: int| i <= t < i + m ==> p[t] != 0,
    ensures
        pool_strings_from(p, i, cur, nulls) == pool_strings_from(p, i + m, cur + p.subrange(i, i + m), 0),
    decreases m,
{
    if m == 1 {
        assert(cur.push(p[i]) =~= cur + p.subrange(i, i + 1));
    } else {
        lemma_read_run(p, i + 1, cur.push(p[i]), 0, m - 1);
        assert(cur.push(p[i]) + p.subrange(i + 1, i + m) =~= cur + p.subrange(i, i + m));
    }
}

proof fn lemma_pool_count_from(area: Seq<u8>, j: int, nulls: int)
    requires
        area.len() >= 2,
        area[area.len() - 1] == 0,
        area[area.len() - 2] == 0,
        0 <= j <= area.len() - 2,
        0 <= nulls <= 1,
        pool_body_result(area.take(area.len() - 2).subrange(j, area.len() - 2)) is Ok,
    ensures
        pool_strings_from(area, j, Seq::empty(), nulls).len() == pool_body_result(
            area.take(area.len() - 2).subrange(j, area.len() - 2),
        )->Ok_0,
    decreases area.len() - 2 - j,
{
    let blen = area.len() - 2;
    let body = area.take(blen);
    let q = body.subrange(j, blen);
    if j == blen {
        assert(area[j] == 0);
        if nulls == 0 {
            assert(area[j + 1] == 0);
            assert(pool_strings_from(area, j + 1, Seq::empty(), 1).len() == 0);
        }
    } else {
        let k = first_zero(q);
        lemma_first_zero_props(q);
        assert(k > 0);
        assert forall|t: int| j <= t < j + k implies area[t] != 0 by {
            assert(area[t] == q[t - j]);
        }
        lemma_read_run(area, j, Seq::empty(), nulls, k);
        let cur = Seq::<u8>::empty() + area.subrange(j, j + k);
        assert(cur.len() == k);
        assert(area[j + k] == 0) by {
            if k < q.len() {
                assert(area[j + k] == q[k]);
            }
        }
        let next = if k + 1 <= q.len() {
            k + 1
        } else {
            q.len() as int
        };
        let rest = q.subrange(next, q.len() as int);
        if k < q.len() {
            assert(rest =~= area.take(blen).subrange(j + k + 1, blen));
            lemma_pool_count_from(area, j + k + 1, 1);
        } else {
            assert(rest.len() == 0);
            assert(area[j + k + 1] == 0);
            assert(pool_strings_from(area, j + k + 1, Seq::empty(), 1).len() == 0);
        }
    }
}

/// A string pool that checks out with `n` strings reads back as `n`
/// strings.
pub proof fn lemma_pool_count(area: Seq<u8>)
    requires
        pool_result(area) is Ok,
    ensures
        pool_strings(area).len() == pool_result(area)->Ok_0,
{
    let blen = area.len() - 2;
    assert(area.take(blen).subrange(0, blen) =~= area.take(blen));
    lemma_pool_count_from(area, 0, 0);
}

proof fn lemma_pool_strings_from_readable(p: Seq<u8>, i: int, cur: Seq<u8>, nulls: int)
    requires
        !cur.contains(0),
    ensures
        strings_readable(pool_strings_from(p, i, cur, nulls)),
    decreases p.len() - i,
{
    if 0 <= i < p.len() {
        if p[i] == 0 {
            lemma_pool_strings_from_readable(p, i + 1, Seq::empty(), nulls + 1);
            let emitted = if cur.len() > 0 {
                seq![cur]
            } else {
                Seq::<Seq<u8>>::empty()
            };
            let rest = pool_strings_from(p, i + 1, Seq::empty(), nulls + 1);
            let all = pool_strings_from(p, i, cur, nulls);
            assert forall|k: int| 0 <= k < all.len() implies #[trigger] string_readable(all[k]) by {
                if nulls + 1 >= 2 {
                    assert(all == emitted);
                } else {
                    assert(all == emitted + rest);
                    if k >= emitted.len() {
                        assert(all[k] == rest[k - emitted.len()]);
                    }
                }
            }
        } else {
            assert(!cur.push(p[i]).contains(0)) by {
                if cur.push(p[i]).contains(0) {
                    let k = choose|k: int| 0 <= k < cur.push(p[i]).len() && cur.push(p[i])[k] == 0;
                    if k < cur.len() {
                        assert(cur[k] == 0);
                    }
                }
            }
            lemma_pool_strings_from_readable(p, i + 1, cur.push(p[i]), 0);
        }
    }
}

/// The strings read from a string pool are not empty and hold no null
/// byte.
pub proof fn lemma_pool_strings_readable(p: Seq<u8>)
    ensures
        strings_readable(pool_strings(p)),
{
    lemma_pool_strings_from_readable(p, 0, Seq::empty(), 0);
}

/// Lossy UTF-8 decoding keeps a string that is not empty and holds no
/// null byte so.
pub open spec fn lossy_keeps_readable(strings: Seq<Seq<u8>>) -> bool {
    forall|t: int|
        0 <= t < strings.len() && string_readable(strings[t]) ==> string_readable(
            #[trigger] utf8_lossy(strings[t]),
        )
}

/// Replacing string `n` of a pool with a string that reads back keeps the
/// number of strings the pool reads back as, where the decoding of the
/// other strings keeps them readable.
pub proof fn law_updated_pool_count(old_pool: Seq<u8>, n: int, new_string: Seq<u8>)
    requires
        1 <= n <= pool_strings(old_pool).len(),
        string_readable(new_string),
        lossy_keeps_readable(pool_strings(old_pool)),
    ensures
        pool_strings(updated_pool(old_pool, n, new_string)).len() == pool_strings(old_pool).len(),
{
    let ps = pool_strings(old_pool);
    lemma_pool_strings_readable(old_pool);
    let ss = lossy_all(ps).update(n - 1, new_string);
    assert(strings_readable(ss)) by {
        assert forall|i: int| 0 <= i < ss.len() implies #[trigger] string_readable(ss[i]) by {
            if i != n - 1 {
                assert(ss[i] == utf8_lossy(ps[i]));
                assert(string_readable(ps[i]));
            }
        }
    }
    let q = updated_pool(old_pool, n, new_string);
    lemma_front_terminated(ss);
    assert(q == front_terminated(ss) + seq![0u8]);
    assert(q.subrange(0, q.len() as int) =~= q);
    lemma_scan_pool(q, 0, ss, 0);
}

/// In a well-formed manager, a record whose header is complete meets what
/// `update_string` asks of it for any string number from 1 to its string
/// count: its image holds the header and a string pool, and the pool reads
/// back as that many strings. So updating such a string with a string that
/// passes the string check succeeds.
pub proof fn law_wf_record_can_be_updated(m: SmbiosManager, h: int, k: int)
    requires
        m.wf(),
        index_of_handle(m.spec_records(), h) >= 0,
        m.spec_records()[index_of_handle(m.spec_records(), h)].header.length >= 4,
        1 <= k <= m.spec_records()[index_of_handle(m.spec_records(), h)].string_count,
    ensures
        ({
            let r = m.spec_records()[index_of_handle(m.spec_records(), h)];
            &&& r.data@.len() >= r.header.length + 2
            &&& k <= pool_strings(r.data@.skip(r.header.length as int)).len()
        }),
{
    lemma_index_found(m.spec_records(), h);
    let i = index_of_handle(m.spec_records(), h);
    assert(record_counted(m.spec_records()[i]));
}

} // verus!
