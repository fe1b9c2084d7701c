//! The literal keywords of the wire protocol, as byte sequences, with exact
//! matching functions. Each keyword has a spec-level sequence and an
//! executable test against a line or line prefix.

use vstd::prelude::*;
use crate::text::SPACE;

verus! {

/// Whether `s` begins with the bytes of `p`.
pub open spec fn starts_with(s: Seq<u8>, p: Seq<u8>) -> bool {
    s.len() >= p.len() && s.take(p.len() as int) == p
}

/// Reports whether `line` is exactly the bytes of `kw`.
pub fn eq_arr<const N: usize>(line: &[u8], kw: &[u8; N]) -> (r: bool)
    ensures
        r == (line@ == kw@),
{
    if line.len() != N {
        proof {
            assert(line@ != kw@);
        }
        return false;
    }
    let mut i: usize = 0;
    while i < N
        invariant
            0 <= i <= N,
            line@.len() == N,
            kw@.len() == N,
            forall|j: int| 0 <= j < i ==> line@[j] == kw@[j],
        decreases N - i,
    {
        if line[i] != kw[i] {
            return false;
        }
        i = i + 1;
    }
    proof {
        assert(line@ =~= kw@);
    }
    true
}

/// Reports whether `line` begins with the bytes of `kw`.
pub fn starts_arr<const N: usize>(line: &[u8], kw: &[u8; N]) -> (r: bool)
    ensures
        r == starts_with(line@, kw@),
{
    if line.len() < N {
        return false;
    }
    let mut i: usize = 0;
    while i < N
        invariant
            0 <= i <= N,
            N <= line@.len(),
            kw@.len() == N,
            forall|j: int| 0 <= j < i ==> line@[j] == kw@[j],
        decreases N - i,
    {
        if line[i] != kw[i] {
            proof {
                assert(line@.take(N as int)[i as int] != kw@[i as int]);
            }
            return false;
        }
        i = i + 1;
    }
    proof {
        assert(line@.take(N as int) =~= kw@);
    }
    true
}

/// The bytes of `STORED`.
pub open spec fn kw_stored() -> Seq<u8> {
    seq![83u8, 84u8, 79u8, 82u8, 69u8, 68u8]
}

/// Reports whether `line` is exactly `STORED`.
pub fn line_is_stored(line: &[u8]) -> (r: bool)
    ensures
        r == (line@ == kw_stored()),
{
    let kw: [u8; 6] = [83, 84, 79, 82, 69, 68];
    let r = eq_arr(line, &kw);
    proof {
        assert(kw@ =~= kw_stored());
    }
    r
}

/// The bytes of `NOT_STORED`.
pub open spec fn kw_not_stored() -> Seq<u8> {
    seq![78u8, 79u8, 84u8, 95u8, 83u8, 84u8, 79u8, 82u8, 69u8, 68u8]
}

/// Reports whether `line` is exactly `NOT_STORED`.
pub fn line_is_not_stored(line: &[u8]) -> (r: bool)
    ensures
        r == (line@ == kw_not_stored()),
{
    let kw: [u8; 10] = [78, 79, 84, 95, 83, 84, 79, 82, 69, 68];
    let r = eq_arr(line, &kw);
    proof {
        assert(kw@ =~= kw_not_stored());
    }
    r
}

/// The bytes of `EXISTS`.
pub open spec fn kw_exists() -> Seq<u8> {
    seq![69u8, 88u8, 73u8, 83u8, 84u8, 83u8]
}

/// Reports whether `line` is exactly `EXISTS`.
pub fn line_is_exists(line: &[u8]) -> (r: bool)
    ensures
        r == (line@ == kw_exists()),
{
    let kw: [u8; 6] = [69, 88, 73, 83, 84, 83];
    let r = eq_arr(line, &kw);
    proof {
        assert(kw@ =~= kw_exists());
    }
    r
}

/// The bytes of `DELETED`.
pub open spec fn kw_deleted() -> Seq<u8> {
    seq![68u8, 69u8, 76u8, 69u8, 84u8, 69u8, 68u8]
}

/// Reports whether `line` is exactly `DELETED`.
pub fn line_is_deleted(line: &[u8]) -> (r: bool)
    ensures
        r == (line@ == kw_deleted()),
{
    let kw: [u8; 7] = [68, 69, 76, 69, 84, 69, 68];
    let r = eq_arr(line, &kw);
    proof {
        assert(kw@ =~= kw_deleted());
    }
    r
}

/// The bytes of `NOT_FOUND`.
pub open spec fn kw_not_found() -> Seq<u8> {
    seq![78u8, 79u8, 84u8, 95u8, 70u8, 79u8, 85u8, 78u8, 68u8]
}

/// Reports whether `line` is exactly `NOT_FOUND`.
pub fn line_is_not_found(line: &[u8]) -> (r: bool)
    ensures
        r == (line@ == kw_not_found()),
{
    let kw: [u8; 9] = [78, 79, 84, 95, 70, 79, 85, 78, 68];
    let r = eq_arr(line, &kw);
    proof {
        assert(kw@ =~= kw_not_found());
    }
    r
}

/// The bytes of `TOUCHED`.
pub open spec fn kw_touched() -> Seq<u8> {
    seq![84u8, 79u8, 85u8, 67u8, 72u8, 69u8, 68u8]
}

/// Reports whether `line` is exactly `TOUCHED`.
pub fn line_is_touched(line: &[u8]) -> (r: bool)
    ensures
        r == (line@ == kw_touched()),
{
    let kw: [u8; 7] = [84, 79, 85, 67, 72, 69, 68];
    let r = eq_arr(line, &kw);
    proof {
        assert(kw@ =~= kw_touched());
    }
    r
}

/// The bytes of `ERROR`.
pub open spec fn kw_error() -> Seq<u8> {
    seq![69u8, 82u8, 82u8, 79u8, 82u8]
}

/// Reports whether `line` is exactly `ERROR`.
pub fn line_is_error(line: &[u8]) -> (r: bool)
    ensures
        r == (line@ == kw_error()),
{
    let kw: [u8; 5] = [69, 82, 82, 79, 82];
    let r = eq_arr(line, &kw);
    proof {
        assert(kw@ =~= kw_error());
    }
    r
}

/// The bytes of `END`.
pub open spec fn kw_end() -> Seq<u8> {
    seq![69u8, 78u8, 68u8]
}

/// Reports whether `line` is exactly `END`.
pub fn line_is_end(line: &[u8]) -> (r: bool)
    ensures
        r == (line@ == kw_end()),
{
    let kw: [u8; 3] = [69, 78, 68];
    let r = eq_arr(line, &kw);
    proof {
        assert(kw@ =~= kw_end());
    }
    r
}

/// The bytes of `CLIENT_ERROR `, trailing separator included.
pub open spec fn kw_client_error_sp() -> Seq<u8> {
    seq![67u8, 76u8, 73u8, 69u8, 78u8, 84u8, 95u8, 69u8, 82u8, 82u8, 79u8, 82u8, SPACE]
}

/// Reports whether `line` begins with `CLIENT_ERROR `.
pub fn line_starts_client_error(line: &[u8]) -> (r: bool)
    ensures
        r == starts_with(line@, kw_client_error_sp()),
{
    let kw: [u8; 13] = [67, 76, 73, 69, 78, 84, 95, 69, 82, 82, 79, 82, SPACE];
    let r = starts_arr(line, &kw);
    proof {
        assert(kw@ =~= kw_client_error_sp());
    }
    r
}

/// The bytes of `SERVER_ERROR `, trailing separator included.
pub open spec fn kw_server_error_sp() -> Seq<u8> {
    seq![83u8, 69u8, 82u8, 86u8, 69u8, 82u8, 95u8, 69u8, 82u8, 82u8, 79u8, 82u8, SPACE]
}

/// Reports whether `line` begins with `SERVER_ERROR `.
pub fn line_starts_server_error(line: &[u8]) -> (r: bool)
    ensures
        r == starts_with(line@, kw_server_error_sp()),
{
    let kw: [u8; 13] = [83, 69, 82, 86, 69, 82, 95, 69, 82, 82, 79, 82, SPACE];
    let r = starts_arr(line, &kw);
    proof {
        assert(kw@ =~= kw_server_error_sp());
    }
    r
}

/// The bytes of `VALUE `, trailing separator included.
pub open spec fn kw_value_sp() -> Seq<u8> {
    seq![86u8, 65u8, 76u8, 85u8, 69u8, SPACE]
}

/// Reports whether `line` begins with `VALUE `.
pub fn line_starts_value(line: &[u8]) -> (r: bool)
    ensures
        r == starts_with(line@, kw_value_sp()),
{
    let kw: [u8; 6] = [86, 65, 76, 85, 69, SPACE];
    let r = starts_arr(line, &kw);
    proof {
        assert(kw@ =~= kw_value_sp());
    }
    r
}

/// The bytes of `STAT `, trailing separator included.
pub open spec fn kw_stat_sp() -> Seq<u8> {
    seq![83u8, 84u8, 65u8, 84u8, SPACE]
}

/// Reports whether `line` begins with `STAT `.
pub fn line_starts_stat(line: &[u8]) -> (r: bool)
    ensures
        r == starts_with(line@, kw_stat_sp()),
{
    let kw: [u8; 5] = [83, 84, 65, 84, SPACE];
    let r = starts_arr(line, &kw);
    proof {
        assert(kw@ =~= kw_stat_sp());
    }
    r
}

/// The bytes of `BUSY `, trailing separator included.
pub open spec fn kw_busy_sp() -> Seq<u8> {
    seq![66u8, 85u8, 83u8, 89u8, SPACE]
}

/// Reports whether `line` begins with `BUSY `.
pub fn line_starts_busy(line: &[u8]) -> (r: bool)
    ensures
        r == starts_with(line@, kw_busy_sp()),
{
    let kw: [u8; 5] = [66, 85, 83, 89, SPACE];
    let r = starts_arr(line, &kw);
    proof {
        assert(kw@ =~= kw_busy_sp());
    }
    r
}

/// The bytes of `BADCLASS `, trailing separator included.
pub open spec fn kw_badclass_sp() -> Seq<u8> {
    seq![66u8, 65u8, 68u8, 67u8, 76u8, 65u8, 83u8, 83u8, SPACE]
}

/// Reports whether `line` begins with `BADCLASS `.
pub fn line_starts_badclass(line: &[u8]) -> (r: bool)
    ensures
        r == starts_with(line@, kw_badclass_sp()),
{
    let kw: [u8; 9] = [66, 65, 68, 67, 76, 65, 83, 83, SPACE];
    let r = starts_arr(line, &kw);
    proof {
        assert(kw@ =~= kw_badclass_sp());
    }
    r
}

/// The bytes of `key=`.
pub open spec fn kw_key_eq() -> Seq<u8> {
    seq![107u8, 101u8, 121u8, 61u8]
}

/// Reports whether `tok` begins with `key=`.
pub fn tok_starts_key(tok: &[u8]) -> (r: bool)
    ensures
        r == starts_with(tok@, kw_key_eq()),
{
    let kw: [u8; 4] = [107, 101, 121, 61];
    let r = starts_arr(tok, &kw);
    proof {
        assert(kw@ =~= kw_key_eq());
    }
    r
}

/// The bytes of `exp=`.
pub open spec fn kw_exp_eq() -> Seq<u8> {
    seq![101u8, 120u8, 112u8, 61u8]
}

/// Reports whether `tok` begins with `exp=`.
pub fn tok_starts_exp(tok: &[u8]) -> (r: bool)
    ensures
        r == starts_with(tok@, kw_exp_eq()),
{
    let kw: [u8; 4] = [101, 120, 112, 61];
    let r = starts_arr(tok, &kw);
    proof {
        assert(kw@ =~= kw_exp_eq());
    }
    r
}

/// The bytes of `la=`.
pub open spec fn kw_la_eq() -> Seq<u8> {
    seq![108u8, 97u8, 61u8]
}

/// Reports whether `tok` begins with `la=`.
pub fn tok_starts_la(tok: &[u8]) -> (r: bool)
    ensures
        r == starts_with(tok@, kw_la_eq()),
{
    let kw: [u8; 3] = [108, 97, 61];
    let r = starts_arr(tok, &kw);
    proof {
        assert(kw@ =~= kw_la_eq());
    }
    r
}

/// The bytes of `cas=`.
pub open spec fn kw_cas_eq() -> Seq<u8> {
    seq![99u8, 97u8, 115u8, 61u8]
}

/// Reports whether `tok` begins with `cas=`.
pub fn tok_starts_cas(tok: &[u8]) -> (r: bool)
    ensures
        r == starts_with(tok@, kw_cas_eq()),
{
    let kw: [u8; 4] = [99, 97, 115, 61];
    let r = starts_arr(tok, &kw);
    proof {
        assert(kw@ =~= kw_cas_eq());
    }
    r
}

/// The bytes of `fetch=`.
pub open spec fn kw_fetch_eq() -> Seq<u8> {
    seq![102u8, 101u8, 116u8, 99u8, 104u8, 61u8]
}

/// Reports whether `tok` begins with `fetch=`.
pub fn tok_starts_fetch(tok: &[u8]) -> (r: bool)
    ensures
        r == starts_with(tok@, kw_fetch_eq()),
{
    let kw: [u8; 6] = [102, 101, 116, 99, 104, 61];
    let r = starts_arr(tok, &kw);
    proof {
        assert(kw@ =~= kw_fetch_eq());
    }
    r
}

/// The bytes of `cls=`.
pub open spec fn kw_cls_eq() -> Seq<u8> {
    seq![99u8, 108u8, 115u8, 61u8]
}

/// Reports whether `tok` begins with `cls=`.
pub fn tok_starts_cls(tok: &[u8]) -> (r: bool)
    ensures
        r == starts_with(tok@, kw_cls_eq()),
{
    let kw: [u8; 4] = [99, 108, 115, 61];
    let r = starts_arr(tok, &kw);
    proof {
        assert(kw@ =~= kw_cls_eq());
    }
    r
}

/// The bytes of `size=`.
pub open spec fn kw_size_eq() -> Seq<u8> {
    seq![115u8, 105u8, 122u8, 101u8, 61u8]
}

/// Reports whether `tok` begins with `size=`.
pub fn tok_starts_size(tok: &[u8]) -> (r: bool)
    ensures
        r == starts_with(tok@, kw_size_eq()),
{
    let kw: [u8; 5] = [115, 105, 122, 101, 61];
    let r = starts_arr(tok, &kw);
    proof {
        assert(kw@ =~= kw_size_eq());
    }
    r
}

/// The bytes of `yes`.
pub open spec fn kw_yes() -> Seq<u8> {
    seq![121u8, 101u8, 115u8]
}

/// Reports whether `tok` is exactly `yes`.
pub fn tok_is_yes(tok: &[u8]) -> (r: bool)
    ensures
        r == (tok@ == kw_yes()),
{
    let kw: [u8; 3] = [121, 101, 115];
    let r = eq_arr(tok, &kw);
    proof {
        assert(kw@ =~= kw_yes());
    }
    r
}

/// The bytes of `no`.
pub open spec fn kw_no() -> Seq<u8> {
    seq![110u8, 111u8]
}

/// Reports whether `tok` is exactly `no`.
pub fn tok_is_no(tok: &[u8]) -> (r: bool)
    ensures
        r == (tok@ == kw_no()),
{
    let kw: [u8; 2] = [110, 111];
    let r = eq_arr(tok, &kw);
    proof {
        assert(kw@ =~= kw_no());
    }
    r
}

} // verus!
