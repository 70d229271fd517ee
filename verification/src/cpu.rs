//! The CPU tab: the cores grouped by manufacturer, one list and one chart
//! per group.

use itertools::Itertools;
use vstd::prelude::*;
use vstd::string::*;
use crate::charts::{color_of, line_color, ChartLine, Color};
use crate::info::CpuInfo;
use crate::lists::{append_left, append_right, push_text, ListView};
use crate::series::MetricKey;
use crate::sort::{antisymmetric, has_key, lemma_move_keeps_filter, lemma_order_determined, ordered_by};
use crate::text::{byte_len, column_width, left_aligned, right_aligned, texts, widest};

verus! {

/// `a` comes before `b` byte by byte; a proper prefix comes before what
/// it is a prefix of.
pub open spec fn bytes_less(a: Seq<u8>, b: Seq<u8>) -> bool
    decreases a.len(),
{
    if b.len() == 0 {
        false
    } else if a.len() == 0 {
        true
    } else if a[0] != b[0] {
        a[0] < b[0]
    } else {
        bytes_less(a.drop_first(), b.drop_first())
    }
}

/// `a` comes before `b` in the order of strings: that of their UTF-8
/// bytes.
pub open spec fn text_less(a: Seq<char>, b: Seq<char>) -> bool {
    bytes_less(vstd::utf8::encode_utf8(a), vstd::utf8::encode_utf8(b))
}

proof fn lemma_bytes_less_irreflexive(a: Seq<u8>)
    ensures
        !bytes_less(a, a),
    decreases a.len(),
{
    if a.len() > 0 {
        lemma_bytes_less_irreflexive(a.drop_first());
    }
}

proof fn lemma_bytes_less_transitive(a: Seq<u8>, b: Seq<u8>, c: Seq<u8>)
    requires
        bytes_less(a, b),
        bytes_less(b, c),
    ensures
        bytes_less(a, c),
    decreases a.len(),
{
    if a.len() > 0 && b.len() > 0 && c.len() > 0 && a[0] == b[0] && b[0] == c[0] {
        lemma_bytes_less_transitive(a.drop_first(), b.drop_first(), c.drop_first());
    }
}

proof fn lemma_bytes_less_total(a: Seq<u8>, b: Seq<u8>)
    ensures
        bytes_less(a, b) || bytes_less(b, a) || a == b,
    decreases a.len(),
{
    if a.len() == 0 || b.len() == 0 {
        if a.len() == 0 && b.len() == 0 {
            assert(a =~= b);
        }
    } else if a[0] == b[0] {
        lemma_bytes_less_total(a.drop_first(), b.drop_first());
        if a.drop_first() == b.drop_first() {
            assert(a =~= seq![a[0]] + a.drop_first());
            assert(b =~= seq![b[0]] + b.drop_first());
        }
    }
}

/// If `c` does not come before `b` and `b` does not come before `a`, then
/// `c` does not come before `a`.
proof fn lemma_not_less_transitive(a: Seq<u8>, b: Seq<u8>, c: Seq<u8>)
    requires
        !bytes_less(b, a),
        !bytes_less(c, b),
    ensures
        !bytes_less(c, a),
{
    if bytes_less(c, a) {
        lemma_bytes_less_total(a, b);
        lemma_bytes_less_total(b, c);
        if bytes_less(a, b) {
            lemma_bytes_less_transitive(c, a, b);
        }
    }
}

/// Whether `a` comes before `b` in the order of strings.
pub fn text_precedes(a: &str, b: &str) -> (less: bool)
    ensures
        less == text_less(a@, b@),
{
    let x = a.as_bytes();
    let y = b.as_bytes();
    let mut i: usize = 0;
    proof {
        assert(x@.skip(0) =~= x@);
        assert(y@.skip(0) =~= y@);
    }
    while i < x.len() && i < y.len()
        invariant
            x@ == vstd::utf8::encode_utf8(a@),
            y@ == vstd::utf8::encode_utf8(b@),
            i <= x@.len(),
            i <= y@.len(),
            bytes_less(x@, y@) == bytes_less(x@.skip(i as int), y@.skip(i as int)),
        decreases x@.len() - i,
    {
        proof {
            assert(x@.skip(i as int)[0] == x@[i as int]);
            assert(y@.skip(i as int)[0] == y@[i as int]);
            assert(x@.skip(i as int).drop_first() =~= x@.skip(i + 1));
            assert(y@.skip(i as int).drop_first() =~= y@.skip(i + 1));
        }
        if x[i] != y[i] {
            return x[i] < y[i];
        }
        i += 1;
    }
    i < y.len()
}

/// The manufacturer of a core.
pub open spec fn manufacturer_of() -> spec_fn(CpuInfo) -> Seq<char> {
    |core: CpuInfo| core.manufacturer@
}

/// The test for being made by `manufacturer`.
pub open spec fn made_by(manufacturer: Seq<char>) -> spec_fn(CpuInfo) -> bool {
    has_key(manufacturer_of(), manufacturer)
}

/// `a` may stand before `b` in the order of strings.
pub open spec fn text_le() -> spec_fn(Seq<char>, Seq<char>) -> bool {
    |a: Seq<char>, b: Seq<char>| !text_less(b, a)
}

/// `after` is `before` in the order of the manufacturers' names, the
/// cores of each manufacturer in the order they had.
pub open spec fn is_manufacturer_order(before: Seq<CpuInfo>, after: Seq<CpuInfo>) -> bool {
    &&& after.len() == before.len()
    &&& forall|i: int, j: int|
        #![trigger after[i], after[j]]
        0 <= i < j < after.len() ==> !text_less(after[j].manufacturer@, after[i].manufacturer@)
    &&& forall|m: Seq<char>| #[trigger] after.filter(made_by(m)) == before.filter(made_by(m))
}

/// The cores in the order of the manufacturers' names.
pub open spec fn by_manufacturer(cores: Seq<CpuInfo>) -> Seq<CpuInfo> {
    choose|after: Seq<CpuInfo>| is_manufacturer_order(cores, after)
}

/// The order by manufacturer exists for every list of cores: moving each
/// core in turn forward past the cores that have to stand after it
/// makes it.
pub proof fn lemma_manufacturer_order_exists(cores: Seq<CpuInfo>)
    ensures
        is_manufacturer_order(cores, by_manufacturer(cores)),
    decreases cores.len(),
{
    if cores.len() == 0 {
        assert(is_manufacturer_order(cores, cores));
    } else {
        let x = cores.last();
        let rest = cores.drop_last();
        lemma_manufacturer_order_exists(rest);
        let before = by_manufacturer(rest);
        let s = before.push(x);
        let i = before.len() as int;
        let j = first_after(s, i, i);
        lemma_first_after(s, i, i);
        let after = if j < i {
            s.remove(i).insert(j, x)
        } else {
            s
        };
        assert forall|m: Seq<char>| #[trigger]
            after.filter(made_by(m)) == cores.filter(made_by(m)) by {
            if j < i {
                assert forall|t: int| j <= t < i && made_by(m)(s[i]) implies !made_by(m)(
                    #[trigger] s[t],
                ) by {
                    assert(text_less(x.manufacturer@, s[t].manufacturer@));
                    lemma_bytes_less_irreflexive(vstd::utf8::encode_utf8(x.manufacturer@));
                }
                lemma_move_keeps_filter(s, i, j, made_by(m));
            }
            assert(before.filter(made_by(m)) == rest.filter(made_by(m)));
            assert(cores =~= rest.push(x));
            lemma_pushed_filter(before, x, made_by(m));
            lemma_pushed_filter(rest, x, made_by(m));
        }
        assert forall|p: int, q: int|
            #![trigger after[p], after[q]]
            0 <= p < q < after.len() implies !text_less(
            after[q].manufacturer@,
            after[p].manufacturer@,
        ) by {
            let sp = if p < j { p } else if p == j { i } else { p - 1 };
            let sq = if q < j { q } else if q == j { i } else { q - 1 };
            assert(after[p] == s[sp]);
            assert(after[q] == s[sq]);
            let bp = vstd::utf8::encode_utf8(s[sp].manufacturer@);
            let bq = vstd::utf8::encode_utf8(s[sq].manufacturer@);
            let bx = vstd::utf8::encode_utf8(x.manufacturer@);
            if sp < i {
                assert(s[sp] == before[sp]);
            }
            if sq < i {
                assert(s[sq] == before[sq]);
            }
            if q == j {
                let stop = vstd::utf8::encode_utf8(s[j - 1].manufacturer@);
                assert(s[j - 1] == before[j - 1]);
                if p < j - 1 {
                    assert(!text_less(before[j - 1].manufacturer@, before[p].manufacturer@));
                } else {
                    lemma_bytes_less_irreflexive(stop);
                }
                lemma_not_less_transitive(bp, stop, bx);
            } else if p == j {
                assert(text_less(x.manufacturer@, s[sq].manufacturer@));
                if bytes_less(bq, bx) {
                    lemma_bytes_less_transitive(bq, bx, bq);
                    lemma_bytes_less_irreflexive(bq);
                }
            } else {
                assert(!text_less(before[sq].manufacturer@, before[sp].manufacturer@));
            }
        }
        assert(is_manufacturer_order(cores, after));
    }
}

/// The order by manufacturer holds as many cores as the list.
pub proof fn lemma_manufacturer_order_keeps_length(cores: Seq<CpuInfo>)
    ensures
        by_manufacturer(cores).len() == cores.len(),
{
    lemma_manufacturer_order_exists(cores);
}

/// Where the core at `i` comes to stand among the cores before it: the
/// least place from which on every core up to `i` has to stand after it.
pub open spec fn first_after(s: Seq<CpuInfo>, i: int, j: int) -> int
    decreases j,
{
    if j <= 0 || !text_less(s[i].manufacturer@, s[j - 1].manufacturer@) {
        j
    } else {
        first_after(s, i, j - 1)
    }
}

proof fn lemma_first_after(s: Seq<CpuInfo>, i: int, j: int)
    requires
        0 <= j <= i < s.len(),
        forall|t: int| j <= t < i ==> text_less(s[i].manufacturer@, (#[trigger] s[t]).manufacturer@),
    ensures
        0 <= first_after(s, i, j) <= j,
        forall|t: int|
            first_after(s, i, j) <= t < i ==> text_less(
                s[i].manufacturer@,
                (#[trigger] s[t]).manufacturer@,
            ),
        first_after(s, i, j) > 0 ==> !text_less(
            s[i].manufacturer@,
            s[first_after(s, i, j) - 1].manufacturer@,
        ),
    decreases j,
{
    if j > 0 && text_less(s[i].manufacturer@, s[j - 1].manufacturer@) {
        lemma_first_after(s, i, j - 1);
    }
}

proof fn lemma_pushed_filter(s: Seq<CpuInfo>, x: CpuInfo, pred: spec_fn(CpuInfo) -> bool)
    ensures
        s.push(x).filter(pred) == if pred(x) {
            s.filter(pred).push(x)
        } else {
            s.filter(pred)
        },
{
    reveal(Seq::filter);
    assert(s.push(x).drop_last() =~= s);
}

/// Two strings that may stand before each other are the same string.
proof fn lemma_text_order_antisymmetric()
    ensures
        antisymmetric(text_le()),
{
    assert forall|x: Seq<char>, y: Seq<char>| #[trigger]
        text_le()(x, y) && text_le()(y, x) implies x == y by {
        lemma_bytes_less_total(vstd::utf8::encode_utf8(x), vstd::utf8::encode_utf8(y));
        vstd::utf8::encode_utf8_decode_utf8(x);
        vstd::utf8::encode_utf8_decode_utf8(y);
    }
}

/// The order by manufacturer leaves no choice: two results that both are
/// that order of the same cores are equal.
pub proof fn lemma_manufacturer_order_unique(
    before: Seq<CpuInfo>,
    first: Seq<CpuInfo>,
    second: Seq<CpuInfo>,
)
    requires
        is_manufacturer_order(before, first),
        is_manufacturer_order(before, second),
    ensures
        first == second,
        by_manufacturer(before) == first,
{
    lemma_text_order_antisymmetric();
    let key = manufacturer_of();
    let le = text_le();
    let chosen = by_manufacturer(before);
    assert(is_manufacturer_order(before, chosen));
    assert forall|a: Seq<CpuInfo>| is_manufacturer_order(before, a) implies a == first by {
        assert(ordered_by(a, key, le)) by {
            assert forall|i: int, j: int|
                #![trigger a[i], a[j]]
                0 <= i < j < a.len() implies le(key(a[i]), key(a[j])) by {}
        }
        assert(ordered_by(first, key, le)) by {
            assert forall|i: int, j: int|
                #![trigger first[i], first[j]]
                0 <= i < j < first.len() implies le(key(first[i]), key(first[j])) by {}
        }
        assert forall|m: Seq<char>| #[trigger]
            a.filter(has_key(key, m)) == first.filter(has_key(key, m)) by {
            assert(a.filter(made_by(m)) == before.filter(made_by(m)));
            assert(first.filter(made_by(m)) == before.filter(made_by(m)));
        }
        lemma_order_determined(a, first, key, le);
    }
}

/// Orders the cores by the name of their manufacturer.
pub fn sort_by_manufacturer(cores: &mut Vec<CpuInfo>)
    ensures
        is_manufacturer_order(old(cores)@, final(cores)@),
        final(cores)@ == by_manufacturer(old(cores)@),
{
    let n = cores.len();
    let ghost before = cores@;
    let mut i: usize = 0;
    while i < n
        invariant
            i <= n,
            cores.len() == n,
            before.len() == n,
            forall|p: int, q: int|
                #![trigger cores@[p], cores@[q]]
                0 <= p < q < i ==> !text_less(cores@[q].manufacturer@, cores@[p].manufacturer@),
            forall|m: Seq<char>| #[trigger] cores@.filter(made_by(m)) == before.filter(made_by(m)),
        decreases n - i,
    {
        let ghost s = cores@;
        let ghost x = s[i as int].manufacturer@;
        let mut j: usize = i;
        let mut searching = true;
        while searching && j > 0
            invariant
                j <= i < n,
                cores@ == s,
                s.len() == n,
                x == s[i as int].manufacturer@,
                forall|t: int| j <= t < i ==> text_less(x, (#[trigger] s[t]).manufacturer@),
                !searching ==> j > 0 && !text_less(x, s[j - 1].manufacturer@),
            decreases j + (if searching { 1int } else { 0int }),
        {
            if text_precedes(cores[i].manufacturer.as_str(), cores[j - 1].manufacturer.as_str()) {
                j = j - 1;
            } else {
                searching = false;
            }
        }
        if j < i {
            let core = cores.remove(i);
            cores.insert(j, core);
        }
        proof {
            let moved = if j < i {
                s.remove(i as int).insert(j as int, s[i as int])
            } else {
                s
            };
            assert(cores@ =~= moved);
            assert forall|m: Seq<char>| #[trigger]
                cores@.filter(made_by(m)) == before.filter(made_by(m)) by {
                if j < i {
                    assert forall|t: int| j <= t < i && made_by(m)(s[i as int]) implies !made_by(m)(
                        #[trigger] s[t],
                    ) by {
                        assert(text_less(x, s[t].manufacturer@));
                        lemma_bytes_less_irreflexive(vstd::utf8::encode_utf8(x));
                    }
                    lemma_move_keeps_filter(s, i as int, j as int, made_by(m));
                }
                assert(s.filter(made_by(m)) == before.filter(made_by(m)));
            }
            assert forall|p: int, q: int|
                #![trigger cores@[p], cores@[q]]
                0 <= p < q < i + 1 implies !text_less(
                cores@[q].manufacturer@,
                cores@[p].manufacturer@,
            ) by {
                let sp = if p < j { p } else if p == j { i as int } else { p - 1 };
                let sq = if q < j { q } else if q == j { i as int } else { q - 1 };
                assert(cores@[p] == s[sp]);
                assert(cores@[q] == s[sq]);
                let bp = vstd::utf8::encode_utf8(s[sp].manufacturer@);
                let bq = vstd::utf8::encode_utf8(s[sq].manufacturer@);
                let bx = vstd::utf8::encode_utf8(x);
                if q == j {
                    // p lies before the place where the search stopped.
                    let stop = vstd::utf8::encode_utf8(s[j - 1].manufacturer@);
                    assert(!bytes_less(bx, stop));
                    if p < j - 1 {
                        assert(!text_less(s[j - 1].manufacturer@, s[p].manufacturer@));
                    } else {
                        lemma_bytes_less_irreflexive(stop);
                    }
                    lemma_not_less_transitive(bp, stop, bx);
                } else if p == j {
                    assert(text_less(x, s[sq].manufacturer@));
                    if bytes_less(bq, bx) {
                        lemma_bytes_less_transitive(bq, bx, bq);
                        lemma_bytes_less_irreflexive(bq);
                    }
                } else {
                    assert(!text_less(s[sq].manufacturer@, s[sp].manufacturer@));
                }
            }
        }
        i = i + 1;
    }
    proof {
        lemma_manufacturer_order_unique(before, cores@, cores@);
    }
}

/// The runs of neighbouring cores of one manufacturer, in their order.
pub open spec fn runs(cores: Seq<CpuInfo>) -> Seq<Seq<CpuInfo>>
    decreases cores.len(),
{
    if cores.len() == 0 {
        Seq::empty()
    } else {
        let earlier = runs(cores.drop_last());
        if earlier.len() > 0 && earlier.last().last().manufacturer@ == cores.last().manufacturer@ {
            earlier.drop_last().push(earlier.last().push(cores.last()))
        } else {
            earlier.push(seq![cores.last()])
        }
    }
}

/// No run is empty.
pub proof fn lemma_runs_hold_cores(cores: Seq<CpuInfo>)
    ensures
        forall|g: int| 0 <= g < runs(cores).len() ==> (#[trigger] runs(cores)[g]).len() > 0,
    decreases cores.len(),
{
    if cores.len() > 0 {
        lemma_runs_hold_cores(cores.drop_last());
        let earlier = runs(cores.drop_last());
        assert forall|g: int| 0 <= g < runs(cores).len() implies (#[trigger] runs(cores)[g]).len()
            > 0 by {
            if g < earlier.len() - 1 {
                assert(runs(cores)[g] == earlier[g]);
            } else if g == earlier.len() - 1 {
                assert(earlier[g].len() > 0);
            }
        }
    }
}

/// Cores that are there make at least one run.
pub proof fn lemma_runs_of_cores(cores: Seq<CpuInfo>)
    ensures
        cores.len() > 0 ==> runs(cores).len() > 0,
{
}

/// The cores of each group.
pub open spec fn group_views(groups: Seq<Vec<CpuInfo>>) -> Seq<Seq<CpuInfo>> {
    groups.map_values(|group: Vec<CpuInfo>| group@)
}

/// Asks itertools to chunk the cores by manufacturer. Its `chunk_by`
/// puts consecutive elements that map to the same key into one group, in
/// their order; the contract claims those runs and nothing else.
#[verifier::external_body]
pub(crate) fn chunk_by_manufacturer(cores: &Vec<CpuInfo>) -> (groups: Vec<Vec<CpuInfo>>)
    ensures
        group_views(groups@) == runs(cores@),
{
    cores
        .iter()
        .chunk_by(|core| core.manufacturer.clone())
        .into_iter()
        .map(|(_key, group)| group.cloned().collect())
        .collect()
}

/// The widths of the columns of a CPU list.
pub struct CpuWidths {
    pub usage: usize,
    pub model: usize,
    pub manufacturer: usize,
    pub frequency: usize,
}

/// The usage of the cores as the list shows it.
pub open spec fn core_usages(cores: Seq<CpuInfo>) -> Seq<Seq<char>> {
    Seq::new(cores.len(), |i: int| cores[i].usage.text@)
}

/// The models of the cores.
pub open spec fn core_models(cores: Seq<CpuInfo>) -> Seq<Seq<char>> {
    Seq::new(cores.len(), |i: int| cores[i].model@)
}

/// The manufacturers of the cores.
pub open spec fn core_manufacturers(cores: Seq<CpuInfo>) -> Seq<Seq<char>> {
    Seq::new(cores.len(), |i: int| cores[i].manufacturer@)
}

/// The frequencies of the cores as the list shows them.
pub open spec fn core_frequencies(cores: Seq<CpuInfo>) -> Seq<Seq<char>> {
    Seq::new(cores.len(), |i: int| cores[i].frequency.gigahertz@)
}

/// Every column is as wide as its widest cell or its label.
pub open spec fn cpu_widths(cores: Seq<CpuInfo>) -> CpuWidths {
    CpuWidths {
        usage: widest(core_usages(cores), byte_len("Usage"@)),
        model: widest(core_models(cores), byte_len("Model/Core Nr."@)),
        manufacturer: widest(core_manufacturers(cores), byte_len("Manufacturer"@)),
        frequency: widest(core_frequencies(cores), byte_len("Frequency (GHz)"@)),
    }
}

/// The row of one core. The manufacturer column is left blank: the
/// manufacturer stands in the header.
pub open spec fn cpu_row(core: CpuInfo, widths: CpuWidths) -> Seq<char> {
    left_aligned(""@, widths.manufacturer as nat) + "  "@ + left_aligned(
        core.model@,
        widths.model as nat,
    ) + "  "@ + right_aligned(core.frequency.gigahertz@, widths.frequency as nat) + "  "@
        + right_aligned(core.usage.text@, widths.usage as nat) + "%"@
}

/// The rows of the list of one group.
pub open spec fn cpu_rows(cores: Seq<CpuInfo>) -> Seq<Seq<char>> {
    Seq::new(cores.len(), |i: int| cpu_row(cores[i], cpu_widths(cores)))
}

/// The header of the list of one group.
pub open spec fn cpu_header(cores: Seq<CpuInfo>) -> Seq<char> {
    let widths = cpu_widths(cores);
    left_aligned(cores[0].manufacturer@, widths.manufacturer as nat) + "  "@ + left_aligned(
        "Model/Core Nr."@,
        widths.model as nat,
    ) + "  "@ + left_aligned("Frequency (GHz)"@, widths.frequency as nat) + "  "@ + left_aligned(
        "Usage"@,
        widths.usage as nat,
    )
}

/// The chart lines of one group: one per core, named by its model.
pub open spec fn cpu_lines(cores: Seq<CpuInfo>) -> Seq<(Seq<char>, Color, (Seq<char>, Seq<char>))> {
    Seq::new(
        cores.len(),
        |i: int| (cores[i].model@, line_color(i as nat), (cores[i].model@, cores[i].manufacturer@)),
    )
}

/// The views of the chart lines.
pub open spec fn line_views(lines: Seq<ChartLine>) -> Seq<(Seq<char>, Color, (Seq<char>, Seq<char>))> {
    lines.map_values(|line: ChartLine| line@)
}

/// The list and the chart lines of one group of cores.
#[derive(Debug, Clone)]
pub struct CpuPane {
    pub list: ListView,
    pub lines: Vec<ChartLine>,
}

impl CpuPane {
    /// The pane shows exactly the cores of `cores`.
    pub open spec fn shows(self, cores: Seq<CpuInfo>) -> bool {
        &&& self.list.title@ == cpu_header(cores)
        &&& self.list.bordered
        &&& texts(self.list.items@) == cpu_rows(cores)
        &&& self.list.highlight_symbol@ == ""@
        &&& line_views(self.lines@) == cpu_lines(cores)
    }

    /// The pane shows nothing.
    pub open spec fn is_blank(self) -> bool {
        &&& self.list.title@ == ""@
        &&& !self.list.bordered
        &&& self.list.items@.len() == 0
        &&& self.list.highlight_symbol@ == ""@
        &&& self.lines@.len() == 0
    }
}

/// The pane of one group of cores.
pub fn cpu_pane(cores: &Vec<CpuInfo>) -> (pane: CpuPane)
    requires
        cores@.len() > 0,
    ensures
        pane.shows(cores@),
{
    let n = cores.len();
    let mut usages: Vec<String> = Vec::new();
    let mut models: Vec<String> = Vec::new();
    let mut manufacturers: Vec<String> = Vec::new();
    let mut frequencies: Vec<String> = Vec::new();
    proof {
        assert(texts(usages@) =~= core_usages(cores@).take(0));
        assert(texts(models@) =~= core_models(cores@).take(0));
        assert(texts(manufacturers@) =~= core_manufacturers(cores@).take(0));
        assert(texts(frequencies@) =~= core_frequencies(cores@).take(0));
    }
    let mut i: usize = 0;
    while i < n
        invariant
            n == cores@.len(),
            i <= n,
            texts(usages@) == core_usages(cores@).take(i as int),
            texts(models@) == core_models(cores@).take(i as int),
            texts(manufacturers@) == core_manufacturers(cores@).take(i as int),
            texts(frequencies@) == core_frequencies(cores@).take(i as int),
        decreases n - i,
    {
        let core = &cores[i];
        push_text(&mut usages, core.usage.text.clone());
        push_text(&mut models, core.model.clone());
        push_text(&mut manufacturers, core.manufacturer.clone());
        push_text(&mut frequencies, core.frequency.gigahertz.clone());
        i += 1;
        proof {
            assert(texts(usages@) =~= core_usages(cores@).take(i as int));
            assert(texts(models@) =~= core_models(cores@).take(i as int));
            assert(texts(manufacturers@) =~= core_manufacturers(cores@).take(i as int));
            assert(texts(frequencies@) =~= core_frequencies(cores@).take(i as int));
        }
    }
    proof {
        assert(core_usages(cores@).take(n as int) =~= core_usages(cores@));
        assert(core_models(cores@).take(n as int) =~= core_models(cores@));
        assert(core_manufacturers(cores@).take(n as int) =~= core_manufacturers(cores@));
        assert(core_frequencies(cores@).take(n as int) =~= core_frequencies(cores@));
    }
    let widths = CpuWidths {
        usage: column_width(&usages, "Usage"),
        model: column_width(&models, "Model/Core Nr."),
        manufacturer: column_width(&manufacturers, "Manufacturer"),
        frequency: column_width(&frequencies, "Frequency (GHz)"),
    };
    assert(widths == cpu_widths(cores@));

    let mut items: Vec<String> = Vec::new();
    let mut lines: Vec<ChartLine> = Vec::new();
    proof {
        assert(texts(items@) =~= cpu_rows(cores@).take(0));
        assert(line_views(lines@) =~= cpu_lines(cores@).take(0));
    }
    let mut i: usize = 0;
    while i < n
        invariant
            n == cores@.len(),
            i <= n,
            widths == cpu_widths(cores@),
            texts(items@) == cpu_rows(cores@).take(i as int),
            line_views(lines@) == cpu_lines(cores@).take(i as int),
        decreases n - i,
    {
        let core = &cores[i];
        let mut row = String::new();
        append_left(&mut row, "", widths.manufacturer);
        row.append("  ");
        append_left(&mut row, core.model.as_str(), widths.model);
        row.append("  ");
        append_right(&mut row, core.frequency.gigahertz.as_str(), widths.frequency);
        row.append("  ");
        append_right(&mut row, core.usage.text.as_str(), widths.usage);
        row.append("%");
        assert(row@ =~= cpu_row(cores@[i as int], widths));
        push_text(&mut items, row);
        let ghost before = lines@;
        let line = ChartLine { name: core.model.clone(), color: color_of(i), key: MetricKey::of_core(core) };
        lines.push(line);
        i += 1;
        proof {
            assert(texts(items@) =~= cpu_rows(cores@).take(i as int));
            assert(line_views(lines@) =~= line_views(before).push(line@));
            assert(line_views(lines@) =~= cpu_lines(cores@).take(i as int));
        }
    }
    proof {
        assert(cpu_rows(cores@).take(n as int) =~= cpu_rows(cores@));
        assert(cpu_lines(cores@).take(n as int) =~= cpu_lines(cores@));
    }
    let mut title = String::new();
    append_left(&mut title, cores[0].manufacturer.as_str(), widths.manufacturer);
    title.append("  ");
    append_left(&mut title, "Model/Core Nr.", widths.model);
    title.append("  ");
    append_left(&mut title, "Frequency (GHz)", widths.frequency);
    title.append("  ");
    append_left(&mut title, "Usage", widths.usage);
    assert(title@ =~= cpu_header(cores@));
    CpuPane {
        list: ListView { title, bordered: true, items, highlight_symbol: String::from_str("") },
        lines,
    }
}

/// The panes of groups of cores, one per group.
pub fn cpu_panes(groups: &Vec<Vec<CpuInfo>>) -> (panes: Vec<CpuPane>)
    requires
        forall|g: int| 0 <= g < groups@.len() ==> (#[trigger] groups@[g])@.len() > 0,
    ensures
        panes@.len() == groups@.len(),
        forall|g: int| 0 <= g < panes@.len() ==> (#[trigger] panes@[g]).shows(groups@[g]@),
{
    let mut panes: Vec<CpuPane> = Vec::new();
    let mut g: usize = 0;
    while g < groups.len()
        invariant
            g <= groups@.len(),
            panes@.len() == g,
            forall|t: int| 0 <= t < groups@.len() ==> (#[trigger] groups@[t])@.len() > 0,
            forall|t: int| 0 <= t < g ==> (#[trigger] panes@[t]).shows(groups@[t]@),
        decreases groups@.len() - g,
    {
        let pane = cpu_pane(&groups[g]);
        panes.push(pane);
        g += 1;
    }
    panes
}

/// The groups of cores that the CPU tab shows: the cores ordered by the
/// name of their manufacturer, and cut where the manufacturer changes.
pub fn cpu_groups(cores: Vec<CpuInfo>) -> (groups: Vec<Vec<CpuInfo>>)
    ensures
        group_views(groups@) == runs(by_manufacturer(cores@)),
        forall|g: int| 0 <= g < groups@.len() ==> (#[trigger] groups@[g])@.len() > 0,
{
    let mut cores = cores;
    sort_by_manufacturer(&mut cores);
    let groups = chunk_by_manufacturer(&cores);
    proof {
        lemma_runs_hold_cores(cores@);
        assert forall|g: int| 0 <= g < groups@.len() implies (#[trigger] groups@[g])@.len() > 0 by {
            assert(group_views(groups@)[g] == groups@[g]@);
        }
    }
    groups
}

/// The panes show the groups, one pane per group.
pub open spec fn panes_show(panes: Seq<CpuPane>, groups: Seq<Seq<CpuInfo>>) -> bool {
    &&& panes.len() == groups.len()
    &&& forall|g: int| 0 <= g < panes.len() ==> (#[trigger] panes[g]).shows(groups[g])
}

/// A copy of the cores, in their order.
pub fn copy_cores(cores: &Vec<CpuInfo>) -> (copy: Vec<CpuInfo>)
    ensures
        copy@ == cores@,
{
    let mut copy: Vec<CpuInfo> = Vec::new();
    let mut i: usize = 0;
    while i < cores.len()
        invariant
            i <= cores@.len(),
            copy@ == cores@.take(i as int),
        decreases cores@.len() - i,
    {
        copy.push(cores[i].clone());
        i += 1;
        assert(copy@ =~= cores@.take(i as int));
    }
    assert(cores@.take(cores@.len() as int) =~= cores@);
    copy
}

fn blank_pane() -> (pane: CpuPane)
    ensures
        pane.is_blank(),
{
    CpuPane {
        list: ListView {
            title: String::from_str(""),
            bordered: false,
            items: Vec::new(),
            highlight_symbol: String::from_str(""),
        },
        lines: Vec::new(),
    }
}

/// The CPU tab: one pane per manufacturer, in the order of their names,
/// each with the cores of that manufacturer in the order they were
/// reported in; a single blank pane when nothing is known about the CPU
/// or no core is reported. There is always a pane to draw. The list that
/// is handed in stays as it was fetched: a copy of it is grouped.
pub fn cpu_tab(cores: &Option<Vec<CpuInfo>>) -> (panes: Vec<CpuPane>)
    ensures
        panes@.len() > 0,
        match *cores {
            Some(list) if list@.len() > 0 => panes_show(panes@, runs(by_manufacturer(list@))),
            _ => panes@.len() == 1 && panes@[0].is_blank(),
        },
{
    match cores {
        Some(list) => {
            if list.len() > 0 {
                let groups = cpu_groups(copy_cores(list));
                let panes = cpu_panes(&groups);
                proof {
                    assert forall|g: int| 0 <= g < panes@.len() implies (
                    #[trigger] panes@[g]).shows(group_views(groups@)[g]) by {
                        assert(group_views(groups@)[g] == groups@[g]@);
                    }
                    lemma_runs_of_cores(by_manufacturer(list@));
                    lemma_manufacturer_order_keeps_length(list@);
                }
                panes
            } else {
                let mut panes: Vec<CpuPane> = Vec::new();
                panes.push(blank_pane());
                panes
            }
        },
        None => {
            let mut panes: Vec<CpuPane> = Vec::new();
            panes.push(blank_pane());
            panes
        },
    }
}

/// The share of the width that each of `count` panes gets, in percent,
/// rounded down: nothing for more than a hundred panes, and the whole
/// width where there is no pane.
pub open spec fn pane_share_of(count: usize) -> u16 {
    if count == 0 {
        100
    } else if count > 100 {
        0
    } else {
        (100int / (count as int)) as u16
    }
}

/// The share of the width for each pane.
pub fn pane_share(count: usize) -> (share: u16)
    ensures
        share == pane_share_of(count),
{
    if count == 0 {
        100
    } else if count > 100 {
        0
    } else {
        (100 / count) as u16
    }
}

} // verus!
