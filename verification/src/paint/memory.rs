use vstd::prelude::*;

use super::paint::Paint;

verus! {

/// How much memory a painter uses, by what it is used for, in bytes.
#[derive(Copy, Clone, Debug, PartialEq, Eq, Structural)]
pub struct MemoryReport {
    pub fonts: usize,
    pub images: usize,
    pub display_list: usize,
}

/// How a reported amount was measured.
#[derive(Copy, Clone, Debug, PartialEq, Eq, Structural)]
pub enum ReportKind {
    ExplicitJemallocHeapSize,
}

/// One line of a memory report.
pub struct Report {
    pub path: Vec<String>,
    pub kind: ReportKind,
    pub size: usize,
}

/// The sum of some amounts.
pub open spec fn total(amounts: Seq<usize>) -> nat
    decreases amounts.len(),
{
    if amounts.len() == 0 {
        0
    } else {
        total(amounts.drop_last()) + amounts.last() as nat
    }
}

/// The font amounts of some painters.
pub open spec fn fonts_of(reports: Seq<MemoryReport>) -> Seq<usize> {
    reports.map_values(|r: MemoryReport| r.fonts)
}

/// The image amounts of some painters.
pub open spec fn images_of(reports: Seq<MemoryReport>) -> Seq<usize> {
    reports.map_values(|r: MemoryReport| r.images)
}

/// The display list amounts of some painters.
pub open spec fn display_lists_of(reports: Seq<MemoryReport>) -> Seq<usize> {
    reports.map_values(|r: MemoryReport| r.display_list)
}

/// Every sum of the amounts that painters report can be counted.
pub open spec fn totals_fit(reports: Seq<MemoryReport>, scroll_trees: Seq<usize>) -> bool {
    &&& total(fonts_of(reports)) <= usize::MAX
    &&& total(images_of(reports)) <= usize::MAX
    &&& total(display_lists_of(reports)) <= usize::MAX
    &&& total(scroll_trees) <= usize::MAX
}

impl Report {
    /// The line reports `size` bytes of heap under `group` and `item`.
    pub open spec fn says(&self, group: Seq<char>, item: Seq<char>, size: int) -> bool {
        &&& self.path@.len() == 2
        &&& self.path@[0]@ == group
        &&& self.path@[1]@ == item
        &&& self.kind == ReportKind::ExplicitJemallocHeapSize
        &&& self.size == size
    }

    fn heap(group: &str, item: &str, size: usize) -> (r: Report)
        ensures
            r.says(group@, item@, size as int),
    {
        let mut path: Vec<String> = Vec::new();
        path.push(group.to_string());
        path.push(item.to_string());
        Report { path, kind: ReportKind::ExplicitJemallocHeapSize, size }
    }
}

/// Calls `+=` on `webrender::MemoryReport`, which adds field by field; only the
/// fields that are reported are filled.
#[verifier::external_body]
fn add_reports(sum: MemoryReport, report: MemoryReport) -> (r: MemoryReport)
    requires
        sum.fonts + report.fonts <= usize::MAX,
        sum.images + report.images <= usize::MAX,
        sum.display_list + report.display_list <= usize::MAX,
    ensures
        r.fonts == sum.fonts + report.fonts,
        r.images == sum.images + report.images,
        r.display_list == sum.display_list + report.display_list,
{
    let mut added = webrender::MemoryReport {
        fonts: sum.fonts,
        images: sum.images,
        display_list: sum.display_list,
        ..Default::default()
    };
    added += webrender::MemoryReport {
        fonts: report.fonts,
        images: report.images,
        display_list: report.display_list,
        ..Default::default()
    };
    MemoryReport { fonts: added.fonts, images: added.images, display_list: added.display_list }
}

/// A part of some amounts comes to no more than all of them.
proof fn lemma_total_prefix(amounts: Seq<usize>, n: int)
    requires
        0 <= n <= amounts.len(),
    ensures
        total(amounts.take(n)) <= total(amounts),
    decreases amounts.len() - n,
{
    if n == amounts.len() {
        assert(amounts.take(n) =~= amounts);
    } else {
        lemma_total_prefix(amounts, n + 1);
        assert(amounts.take(n + 1).drop_last() =~= amounts.take(n));
    }
}

/// The next amount adds to the sum of those before it.
proof fn lemma_total_step(amounts: Seq<usize>, n: int)
    requires
        0 <= n < amounts.len(),
    ensures
        total(amounts.take(n + 1)) == total(amounts.take(n)) + amounts[n],
        total(amounts.take(n + 1)) <= total(amounts),
{
    assert(amounts.take(n + 1).drop_last() =~= amounts.take(n));
    lemma_total_prefix(amounts, n + 1);
}

/// The sum of some amounts, or nothing where it cannot be counted.
fn checked_total(amounts: &Vec<usize>) -> (r: Option<usize>)
    ensures
        r is Some <==> total(amounts@) <= usize::MAX,
        r matches Some(sum) ==> sum == total(amounts@),
{
    let mut sum: usize = 0;
    let mut i: usize = 0;
    while i < amounts.len()
        invariant
            i <= amounts.len(),
            sum == total(amounts@.take(i as int)),
        decreases amounts.len() - i,
    {
        proof {
            lemma_total_step(amounts@, i as int);
        }
        match sum.checked_add(amounts[i]) {
            Some(next) => {
                sum = next;
            },
            None => {
                return None;
            },
        }
        i = i + 1;
    }
    assert(amounts@.take(amounts@.len() as int) =~= amounts@);
    Some(sum)
}

/// Whether every sum of the amounts that painters report can be counted.
pub fn memory_totals_fit(reports: &Vec<MemoryReport>, scroll_trees: &Vec<usize>) -> (r: bool)
    ensures
        r == totals_fit(reports@, scroll_trees@),
{
    let mut fonts: Vec<usize> = Vec::new();
    let mut images: Vec<usize> = Vec::new();
    let mut display_lists: Vec<usize> = Vec::new();
    let mut i: usize = 0;
    while i < reports.len()
        invariant
            i <= reports.len(),
            fonts@ == fonts_of(reports@.take(i as int)),
            images@ == images_of(reports@.take(i as int)),
            display_lists@ == display_lists_of(reports@.take(i as int)),
        decreases reports.len() - i,
    {
        fonts.push(reports[i].fonts);
        images.push(reports[i].images);
        display_lists.push(reports[i].display_list);
        i = i + 1;
        assert(fonts@ =~= fonts_of(reports@.take(i as int)));
        assert(images@ =~= images_of(reports@.take(i as int)));
        assert(display_lists@ =~= display_lists_of(reports@.take(i as int)));
    }
    assert(reports@.take(reports@.len() as int) =~= reports@);
    checked_total(&fonts).is_some() && checked_total(&images).is_some() && checked_total(
        &display_lists,
    ).is_some() && checked_total(scroll_trees).is_some()
}

impl Paint {
    /// The memory report over all painters: what each of them reported and what the
    /// scroll tree of each takes, asked in the order of [`Self::painter_ids`].
    pub fn collect_memory_report(
        &self,
        reports: &Vec<MemoryReport>,
        scroll_trees: &Vec<usize>,
    ) -> (r: Vec<Report>)
        requires
            reports@.len() == self.painters().len(),
            scroll_trees@.len() == self.painters().len(),
            totals_fit(reports@, scroll_trees@),
        ensures
            r@.len() == 4,
            r@[0].says("webrender"@, "fonts"@, total(fonts_of(reports@)) as int),
            r@[1].says("webrender"@, "images"@, total(images_of(reports@)) as int),
            r@[2].says("webrender"@, "display-list"@, total(display_lists_of(reports@)) as int),
            r@[3].says("paint"@, "scroll-tree"@, total(scroll_trees@) as int),
    {
        let mut sum = MemoryReport { fonts: 0, images: 0, display_list: 0 };
        let mut i: usize = 0;
        while i < reports.len()
            invariant
                i <= reports.len(),
                totals_fit(reports@, scroll_trees@),
                sum.fonts == total(fonts_of(reports@).take(i as int)),
                sum.images == total(images_of(reports@).take(i as int)),
                sum.display_list == total(display_lists_of(reports@).take(i as int)),
            decreases reports.len() - i,
        {
            proof {
                lemma_total_step(fonts_of(reports@), i as int);
                lemma_total_step(images_of(reports@), i as int);
                lemma_total_step(display_lists_of(reports@), i as int);
            }
            sum = add_reports(sum, reports[i]);
            i = i + 1;
        }
        let mut scroll_tree: usize = 0;
        let mut j: usize = 0;
        while j < scroll_trees.len()
            invariant
                j <= scroll_trees.len(),
                total(scroll_trees@) <= usize::MAX,
                scroll_tree == total(scroll_trees@.take(j as int)),
            decreases scroll_trees.len() - j,
        {
            proof {
                lemma_total_step(scroll_trees@, j as int);
            }
            scroll_tree = scroll_tree + scroll_trees[j];
            j = j + 1;
        }
        proof {
            let n = reports@.len() as int;
            assert(fonts_of(reports@).take(n) =~= fonts_of(reports@));
            assert(images_of(reports@).take(n) =~= images_of(reports@));
            assert(display_lists_of(reports@).take(n) =~= display_lists_of(reports@));
            assert(scroll_trees@.take(scroll_trees@.len() as int) =~= scroll_trees@);
        }
        let mut lines: Vec<Report> = Vec::new();
        lines.push(Report::heap("webrender", "fonts", sum.fonts));
        lines.push(Report::heap("webrender", "images", sum.images));
        lines.push(Report::heap("webrender", "display-list", sum.display_list));
        lines.push(Report::heap("paint", "scroll-tree", scroll_tree));
        lines
    }
}

} // verus!
