//! CPU usage sampler: parses the aggregate line of `/proc/stat` into tick
//! counters and turns two such readings, taken a short interval apart,
//! into a usage percentage. Reading the file and waiting between the two
//! readings happen outside the library.
use vstd::prelude::*;

use crate::block::{BarColor, SwayBarBlock};
use crate::error::{CliError, ErrorKind};
use crate::parse::{dec_value, is_space, u64_digits, valid_u64};
use crate::text::{dec, pad_left};

verus! {

/// Length of the maximal non-whitespace prefix of `s`.
pub open spec fn token_len(s: Seq<u8>) -> nat
    decreases s.len(),
{
    if s.len() == 0 || is_space(s[0]) {
        0
    } else {
        1 + token_len(s.drop_first())
    }
}

/// A token is never longer than the text it starts.
pub proof fn lemma_token_len_bound(s: Seq<u8>)
    ensures
        token_len(s) <= s.len(),
    decreases s.len(),
{
    if s.len() > 0 && !is_space(s[0]) {
        lemma_token_len_bound(s.drop_first());
    }
}

/// `s` split on ASCII whitespace, empty tokens dropped.
pub open spec fn tokens(s: Seq<u8>) -> Seq<Seq<u8>>
    decreases s.len(),
    via tokens_decreases
{
    if s.len() == 0 {
        Seq::empty()
    } else if is_space(s[0]) {
        tokens(s.drop_first())
    } else {
        seq![s.take(token_len(s) as int)] + tokens(s.skip(token_len(s) as int))
    }
}

#[via_fn]
proof fn tokens_decreases(s: Seq<u8>) {
    lemma_token_len_bound(s);
}

/// The number the `k`-th whitespace-separated token denotes. Only
/// meaningful on a valid cpu line, where the token exists and parses.
pub open spec fn field_val(ts: Seq<Seq<u8>>, k: int) -> u64 {
    if 0 <= k < ts.len() && valid_u64(ts[k]) {
        dec_value(u64_digits(ts[k])) as u64
    } else {
        0
    }
}

/// A well-formed aggregate cpu line: the label token and at least the
/// eight counters, each a decimal `u64`. Anything less — a counter
/// missing or malformed — is a hard fetch error, never a silent zero.
pub open spec fn cpu_line_valid(ts: Seq<Seq<u8>>) -> bool {
    ts.len() >= 9 && (forall|k: int| 1 <= k <= 8 ==> valid_u64(#[trigger] ts[k]))
}

/// Everything before the first newline of `s` (all of `s` when it has none).
pub open spec fn first_line(s: Seq<u8>) -> Seq<u8>
    decreases s.len(),
{
    if s.len() == 0 || s[0] == 0x0a {
        Seq::empty()
    } else {
        seq![s[0]] + first_line(s.drop_first())
    }
}

/// Saturating addition on `u64`, as the counters are summed.
pub open spec fn sat_add(a: u64, b: u64) -> u64 {
    if a + b > u64::MAX {
        u64::MAX
    } else {
        (a + b) as u64
    }
}

/// The tick counters of the aggregate cpu line of `/proc/stat`, in the
/// order the kernel prints them. The guest counters are not kept: the
/// kernel already accounts guest time inside `user`.
#[derive(Clone, Copy, Debug)]
pub struct CpuUsageStat {
    pub user: u64,
    pub nice: u64,
    pub system: u64,
    pub idle: u64,
    pub iowait: u64,
    pub irq: u64,
    pub soft_irq: u64,
    pub steal: u64,
}

/// The busy ticks of a reading: user, nice, system, irq and softirq,
/// summed saturating.
pub open spec fn work_time_spec(s: CpuUsageStat) -> u64 {
    sat_add(sat_add(sat_add(sat_add(s.user, s.nice), s.system), s.irq), s.soft_irq)
}

/// All ticks of a reading: the busy ones plus iowait, idle and steal,
/// summed saturating.
pub open spec fn total_time_spec(s: CpuUsageStat) -> u64 {
    sat_add(sat_add(sat_add(work_time_spec(s), s.iowait), s.idle), s.steal)
}

impl CpuUsageStat {
    /// Parse one `/proc/stat` cpu line: the label token is skipped, the
    /// next eight fields are read in decimal. A missing or malformed
    /// field is a hard fetch error, never a silent zero.
    pub fn from_line(line: &[u8]) -> (r: Result<CpuUsageStat, CliError>)
        ensures
            r is Ok <==> cpu_line_valid(tokens(line@)),
            r is Ok ==> {
                let s = r->Ok_0;
                &&& s.user == field_val(tokens(line@), 1)
                &&& s.nice == field_val(tokens(line@), 2)
                &&& s.system == field_val(tokens(line@), 3)
                &&& s.idle == field_val(tokens(line@), 4)
                &&& s.iowait == field_val(tokens(line@), 5)
                &&& s.irq == field_val(tokens(line@), 6)
                &&& s.soft_irq == field_val(tokens(line@), 7)
                &&& s.steal == field_val(tokens(line@), 8)
            },
            r is Err ==> r->Err_0.kind == ErrorKind::Parse,
    {
        let tk = tokenize(line);
        if tk.len() < 9 {
            return Err(cpu_line_error());
        }
        let stat = CpuUsageStat {
            user: token_u64(&tk, 1, Ghost(line@))?,
            nice: token_u64(&tk, 2, Ghost(line@))?,
            system: token_u64(&tk, 3, Ghost(line@))?,
            idle: token_u64(&tk, 4, Ghost(line@))?,
            iowait: token_u64(&tk, 5, Ghost(line@))?,
            irq: token_u64(&tk, 6, Ghost(line@))?,
            soft_irq: token_u64(&tk, 7, Ghost(line@))?,
            steal: token_u64(&tk, 8, Ghost(line@))?,
        };
        proof {
            let ts = tokens(line@);
            assert forall|k: int| 1 <= k <= 8 implies valid_u64(#[trigger] ts[k]) by {
                if k == 1 {
                } else if k == 2 {
                } else if k == 3 {
                } else if k == 4 {
                } else if k == 5 {
                } else if k == 6 {
                } else if k == 7 {
                }
            }
        }
        Ok(stat)
    }

    /// Parse the first line of the whole `/proc/stat` content, which is
    /// the aggregate cpu line.
    pub fn retrieve(stat: &[u8]) -> (r: Result<CpuUsageStat, CliError>)
        ensures
            r is Ok <==> cpu_line_valid(tokens(first_line(stat@))),
            r is Ok ==> {
                let s = r->Ok_0;
                &&& s.user == field_val(tokens(first_line(stat@)), 1)
                &&& s.nice == field_val(tokens(first_line(stat@)), 2)
                &&& s.system == field_val(tokens(first_line(stat@)), 3)
                &&& s.idle == field_val(tokens(first_line(stat@)), 4)
                &&& s.iowait == field_val(tokens(first_line(stat@)), 5)
                &&& s.irq == field_val(tokens(first_line(stat@)), 6)
                &&& s.soft_irq == field_val(tokens(first_line(stat@)), 7)
                &&& s.steal == field_val(tokens(first_line(stat@)), 8)
            },
            r is Err ==> r->Err_0.kind == ErrorKind::Parse,
    {
        let mut end: usize = 0;
        assert(stat@.skip(0) =~= stat@);
        assert(stat@.subrange(0, 0) =~= Seq::<u8>::empty());
        while end < stat.len() && stat[end] != 0x0a
            invariant
                0 <= end <= stat@.len(),
                first_line(stat@) == stat@.subrange(0, end as int) + first_line(
                    stat@.skip(end as int),
                ),
            decreases stat@.len() - end,
        {
            assert(stat@.skip(end as int).drop_first() =~= stat@.skip(end + 1));
            assert(stat@.subrange(0, end as int).push(stat@[end as int]) =~= stat@.subrange(
                0,
                end + 1,
            ));
            end = end + 1;
        }
        assert(first_line(stat@) =~= stat@.subrange(0, end as int));
        let line = vstd::slice::slice_subrange(stat, 0, end);
        CpuUsageStat::from_line(line)
    }

    /// The busy ticks: user, nice, system, irq and softirq.
    pub fn work_time(&self) -> (r: u64)
        ensures
            r == work_time_spec(*self),
    {
        self.user
            .saturating_add(self.nice)
            .saturating_add(self.system)
            .saturating_add(self.irq)
            .saturating_add(self.soft_irq)
    }

    /// All ticks: the busy ones plus iowait, idle and steal.
    pub fn total_time(&self) -> (r: u64)
        ensures
            r == total_time_spec(*self),
    {
        self.work_time().saturating_add(self.iowait).saturating_add(self.idle).saturating_add(
            self.steal,
        )
    }

    /// The usage percentage between the older reading `old_stat` and
    /// `self`: busy delta times 100 over total delta, truncated. The
    /// callers must have ruled out non-monotonic counters and a zero
    /// total delta beforehand; those are hard fetch errors, never a
    /// silent zero.
    pub fn cpu_usage_percent(&self, old_stat: &CpuUsageStat) -> (r: u64)
        requires
            work_time_spec(*old_stat) <= work_time_spec(*self),
            total_time_spec(*old_stat) < total_time_spec(*self),
            (work_time_spec(*self) - work_time_spec(*old_stat)) * 100 <= u64::MAX,
        ensures
            r == (work_time_spec(*self) - work_time_spec(*old_stat)) * 100 / (total_time_spec(
                *self,
            ) - total_time_spec(*old_stat)),
    {
        (self.work_time() - old_stat.work_time()) * 100 / (self.total_time()
            - old_stat.total_time())
    }
}

/// Read token `k` as a decimal `u64`; a malformed token is an error.
fn token_u64(tk: &Vec<Vec<u8>>, k: usize, s: Ghost<Seq<u8>>) -> (r: Result<u64, CliError>)
    requires
        k < tk@.len(),
        tk@.len() == tokens(s@).len(),
        forall|i: int| 0 <= i < tk@.len() ==> #[trigger] tk@[i]@ == tokens(s@)[i],
    ensures
        r is Ok <==> valid_u64(tokens(s@)[k as int]),
        r is Ok ==> r->Ok_0 == field_val(tokens(s@), k as int),
        r is Err ==> r->Err_0.kind == ErrorKind::Parse,
{
    match crate::parse::parse_u64(tk[k].as_slice()) {
        Ok(v) => Ok(v),
        Err(_) => Err(cpu_line_error()),
    }
}

/// "malformed cpu line"
fn cpu_line_error() -> (r: CliError)
    ensures
        r.kind == ErrorKind::Parse,
{
    let msg: [u8; 18] = [
        0x6d, 0x61, 0x6c, 0x66, 0x6f, 0x72, 0x6d, 0x65, 0x64, 0x20, 0x63, 0x70, 0x75, 0x20,
        0x6c, 0x69, 0x6e, 0x65,
    ];
    CliError::from_msg(ErrorKind::Parse, msg.as_slice())
}

/// Split `s` on ASCII whitespace.
pub fn tokenize(s: &[u8]) -> (r: Vec<Vec<u8>>)
    ensures
        r@.len() == tokens(s@).len(),
        forall|i: int| 0 <= i < r@.len() ==> #[trigger] r@[i]@ == tokens(s@)[i],
{
    let mut r: Vec<Vec<u8>> = Vec::new();
    let mut i: usize = 0;
    assert(s@.skip(0) =~= s@);
    assert(r@.map_values(|v: Vec<u8>| v@) =~= Seq::<Seq<u8>>::empty());
    while i < s.len()
        invariant
            0 <= i <= s@.len(),
            tokens(s@) == r@.map_values(|v: Vec<u8>| v@) + tokens(s@.skip(i as int)),
        decreases s@.len() - i,
    {
        if crate::parse::is_space_byte(s[i]) {
            assert(s@.skip(i as int).drop_first() =~= s@.skip(i + 1));
            i = i + 1;
        } else {
            let start = i;
            let mut j = i + 1;
            assert(token_len(s@.skip(start as int)) == 1 + token_len(s@.skip(start + 1)))
                by {
                assert(s@.skip(start as int).drop_first() =~= s@.skip(start + 1));
            };
            while j < s.len() && !crate::parse::is_space_byte(s[j])
                invariant
                    start < j <= s@.len(),
                    token_len(s@.skip(start as int)) == (j - start) + token_len(
                        s@.skip(j as int),
                    ),
                decreases s@.len() - j,
            {
                assert(s@.skip(j as int).drop_first() =~= s@.skip(j + 1));
                j = j + 1;
            }
            assert(token_len(s@.skip(j as int)) == 0);
            let tok_slice = vstd::slice::slice_subrange(s, start, j);
            let mut tok: Vec<u8> = Vec::new();
            crate::text::push_bytes(&mut tok, tok_slice);
            proof {
                assert(s@.skip(start as int).take((j - start) as int) =~= s@.subrange(
                    start as int,
                    j as int,
                ));
                assert(s@.skip(start as int).skip((j - start) as int) =~= s@.skip(j as int));
                assert(tokens(s@.skip(start as int)) == seq![s@.subrange(start as int, j as int)]
                    + tokens(s@.skip(j as int)));
            }
            let ghost prev = r@;
            r.push(tok);
            proof {
                assert(r@.map_values(|v: Vec<u8>| v@) =~= prev.map_values(|v: Vec<u8>| v@).push(
                    tok@,
                ));
                assert(prev.map_values(|v: Vec<u8>| v@).push(tok@) + tokens(s@.skip(j as int))
                    =~= prev.map_values(|v: Vec<u8>| v@) + (seq![tok@] + tokens(
                    s@.skip(j as int),
                )));
            }
            i = j;
        }
    }
    assert(tokens(s@.skip(i as int)) =~= Seq::<Seq<u8>>::empty());
    assert(tokens(s@) =~= r@.map_values(|v: Vec<u8>| v@));
    assert(forall|k: int| 0 <= k < r@.len() ==> #[trigger] r@[k]@ == r@.map_values(
        |v: Vec<u8>| v@,
    )[k]);
    r
}

/// "C: " then the percentage padded to three columns then "%".
pub open spec fn cpu_text(percent: nat) -> Seq<u8> {
    seq![0x43u8, 0x3a, 0x20] + pad_left(dec(percent), 3) + seq![0x25u8]
}

/// The color band of a usage percentage: 80 % and above red, 50 % and
/// above yellow, otherwise the default.
pub open spec fn cpu_color(percent: nat) -> Option<BarColor> {
    if percent >= 80 {
        Some(BarColor::Red)
    } else if percent >= 50 {
        Some(BarColor::Yellow)
    } else {
        None
    }
}

/// Build the CPU block from two readings taken a short interval apart.
/// Counters that moved backwards, or a total delta of zero, are hard
/// fetch errors: the rate is never silently clamped.
pub fn get_cpu(old_stat: &CpuUsageStat, new_stat: &CpuUsageStat) -> (r: Result<
    SwayBarBlock,
    CliError,
>)
    ensures
        r is Ok <==> work_time_spec(*old_stat) <= work_time_spec(*new_stat)
            && total_time_spec(*old_stat) < total_time_spec(*new_stat) && (work_time_spec(
            *new_stat,
        ) - work_time_spec(*old_stat)) * 100 <= u64::MAX,
        r is Ok ==> {
            let percent = (work_time_spec(*new_stat) - work_time_spec(*old_stat)) * 100 / (
            total_time_spec(*new_stat) - total_time_spec(*old_stat));
            &&& r->Ok_0.name@ == seq![0x63u8, 0x70, 0x75]
            &&& r->Ok_0.full_text@ == cpu_text(percent as nat)
            &&& r->Ok_0.color == cpu_color(percent as nat)
            &&& r->Ok_0.min_width == Some(7usize)
            &&& r->Ok_0.urgent is None
        },
        r is Err ==> r->Err_0.kind == ErrorKind::Protocol,
{
    let old_work = old_stat.work_time();
    let new_work = new_stat.work_time();
    let old_total = old_stat.total_time();
    let new_total = new_stat.total_time();
    if new_work < old_work || new_total <= old_total {
        // "cpu counters moved backwards"
        let msg: [u8; 28] = [
            0x63, 0x70, 0x75, 0x20, 0x63, 0x6f, 0x75, 0x6e, 0x74, 0x65, 0x72, 0x73, 0x20, 0x6d,
            0x6f, 0x76, 0x65, 0x64, 0x20, 0x62, 0x61, 0x63, 0x6b, 0x77, 0x61, 0x72, 0x64, 0x73,
        ];
        return Err(CliError::from_msg(ErrorKind::Protocol, msg.as_slice()));
    }
    let work_delta = new_work - old_work;
    if work_delta > u64::MAX / 100 {
        // "cpu tick delta too large"
        let msg: [u8; 24] = [
            0x63, 0x70, 0x75, 0x20, 0x74, 0x69, 0x63, 0x6b, 0x20, 0x64, 0x65, 0x6c, 0x74, 0x61,
            0x20, 0x74, 0x6f, 0x6f, 0x20, 0x6c, 0x61, 0x72, 0x67, 0x65,
        ];
        return Err(CliError::from_msg(ErrorKind::Protocol, msg.as_slice()));
    }
    let percent = new_stat.cpu_usage_percent(old_stat);
    let color: Option<BarColor> = if percent >= 80 {
        Some(BarColor::Red)
    } else if percent >= 50 {
        Some(BarColor::Yellow)
    } else {
        None
    };
    // "cpu"
    let name_lit: [u8; 3] = [0x63, 0x70, 0x75];
    let mut name: Vec<u8> = Vec::new();
    crate::text::push_bytes(&mut name, name_lit.as_slice());
    // "C: "
    let prefix: [u8; 3] = [0x43, 0x3a, 0x20];
    let mut text: Vec<u8> = Vec::new();
    crate::text::push_bytes(&mut text, prefix.as_slice());
    let mut digits: Vec<u8> = Vec::new();
    crate::text::push_dec(&mut digits, percent);
    crate::text::push_pad_left(&mut text, &digits, 3);
    text.push(0x25);
    assert(text@ =~= cpu_text(percent as nat));
    Ok(SwayBarBlock { name, full_text: text, min_width: Some(7), urgent: None, color })
}

} // verus!
