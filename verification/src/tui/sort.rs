//! Sorting the lists by a column.

use vstd::prelude::*;
use crate::docker::model::{
    ContainerInfo, ContainerModel, ImageInfo, ImageModel, UpdateInfo, UpdateModel,
};
use crate::clock;
use crate::clock::date_or_dash;
use crate::refmap::RefMap;
use crate::text::{chars_of, copy_option};
use crate::tui::types::{ContainerStats, SortKey, StatsModel};
use crate::tui::ui;
use crate::tui::ui::{state_text, update_label};

verus! {

// ── What is compared ───────────────────────────────────────────────────────

/// What a row is compared by.
#[derive(Debug)]
pub enum Rank {
    Number(i64),
    Text(String),
}

/// What a row is compared by, as mathematical values.
pub enum RankModel {
    Number(i64),
    Text(Seq<char>),
}

impl View for Rank {
    type V = RankModel;

    open spec fn view(&self) -> RankModel {
        match self {
            Rank::Number(n) => RankModel::Number(*n),
            Rank::Text(t) => RankModel::Text(t@),
        }
    }
}

impl DeepView for Rank {
    type V = RankModel;

    open spec fn deep_view(&self) -> RankModel {
        self@
    }
}

/// Whether a text comes before another, character by character.
pub open spec fn text_before(a: Seq<char>, b: Seq<char>) -> bool
    decreases a.len(),
{
    if b.len() == 0 {
        false
    } else if a.len() == 0 {
        true
    } else if a[0] == b[0] {
        text_before(a.drop_first(), b.drop_first())
    } else {
        (a[0] as int) < (b[0] as int)
    }
}

impl RankModel {
    /// Whether a rank is lower than another. Numbers are lower than texts.
    pub open spec fn lower(self, other: RankModel) -> bool {
        match (self, other) {
            (RankModel::Number(a), RankModel::Number(b)) => a < b,
            (RankModel::Number(_), RankModel::Text(_)) => true,
            (RankModel::Text(_), RankModel::Number(_)) => false,
            (RankModel::Text(a), RankModel::Text(b)) => text_before(a, b),
        }
    }

    /// Whether a rank has to stand before another.
    pub open spec fn precedes(self, other: RankModel, descending: bool) -> bool {
        if descending {
            other.lower(self)
        } else {
            self.lower(other)
        }
    }
}

/// Equal characters at the start of two texts do not matter.
proof fn lemma_common_start(a: Seq<char>, b: Seq<char>, n: int)
    requires
        0 <= n <= a.len(),
        n <= b.len(),
        forall|i: int| 0 <= i < n ==> a[i] == b[i],
    ensures
        text_before(a, b) == text_before(a.skip(n), b.skip(n)),
    decreases n,
{
    if n == 0 {
        assert(a.skip(0) =~= a);
        assert(b.skip(0) =~= b);
    } else {
        let x = a.drop_first();
        let y = b.drop_first();
        assert forall|i: int| 0 <= i < n - 1 implies x[i] == y[i] by {
            assert(a[i + 1] == b[i + 1]);
        }
        lemma_common_start(x, y, n - 1);
        assert(x.skip(n - 1) =~= a.skip(n));
        assert(y.skip(n - 1) =~= b.skip(n));
    }
}

/// Whether a text comes before another, character by character.
pub fn comes_before(a: &str, b: &str) -> (r: bool)
    ensures
        r == text_before(a@, b@),
{
    let x = chars_of(a);
    let y = chars_of(b);
    let mut i: usize = 0;
    while i < x.len() && i < y.len() && x[i] == y[i]
        invariant
            x@ == a@,
            y@ == b@,
            i <= x@.len(),
            i <= y@.len(),
            forall|j: int| 0 <= j < i ==> x@[j] == y@[j],
        decreases x@.len() - i,
    {
        i = i + 1;
    }
    proof {
        lemma_common_start(a@, b@, i as int);
    }
    if i == y.len() {
        false
    } else if i == x.len() {
        true
    } else {
        x[i] < y[i]
    }
}

fn lower(a: &Rank, b: &Rank) -> (r: bool)
    ensures
        r == a@.lower(b@),
{
    match (a, b) {
        (Rank::Number(x), Rank::Number(y)) => *x < *y,
        (Rank::Number(_), Rank::Text(_)) => true,
        (Rank::Text(_), Rank::Number(_)) => false,
        (Rank::Text(x), Rank::Text(y)) => comes_before(x.as_str(), y.as_str()),
    }
}

fn precedes(a: &Rank, b: &Rank, descending: bool) -> (r: bool)
    ensures
        r == a@.precedes(b@, descending),
{
    if descending {
        lower(b, a)
    } else {
        lower(a, b)
    }
}

// ── The order ──────────────────────────────────────────────────────────────

/// Rows that are in order with one more: it goes as far to the front as it has to stand before
/// others.
pub open spec fn joined(
    ranks: Seq<RankModel>,
    descending: bool,
    rows: Seq<int>,
    row: int,
) -> Seq<int>
    decreases rows.len(),
{
    if rows.len() > 0 && ranks[row].precedes(ranks[rows.last()], descending) {
        joined(ranks, descending, rows.drop_last(), row).push(rows.last())
    } else {
        rows.push(row)
    }
}

/// The first `count` rows in order.
pub open spec fn ordered(ranks: Seq<RankModel>, descending: bool, count: nat) -> Seq<int>
    decreases count,
{
    if count == 0 {
        Seq::empty()
    } else {
        joined(
            ranks,
            descending,
            ordered(ranks, descending, (count - 1) as nat),
            count - 1,
        )
    }
}

/// The rows in order: by their ranks, and those of equal rank as they were.
pub open spec fn order(ranks: Seq<RankModel>, descending: bool) -> Seq<int> {
    ordered(ranks, descending, ranks.len())
}

/// A list with its rows in another order.
pub open spec fn rearranged<A>(items: Seq<A>, rows: Seq<int>) -> Seq<A> {
    rows.map_values(|i: int| items[i])
}

/// Where one more row goes.
proof fn lemma_joined(
    ranks: Seq<RankModel>,
    descending: bool,
    rows: Seq<int>,
    row: int,
    at: int,
)
    requires
        0 <= at <= rows.len(),
        forall|k: int|
            at <= k < rows.len() ==> ranks[row].precedes(ranks[#[trigger] rows[k]], descending),
        at > 0 ==> !ranks[row].precedes(ranks[rows[at - 1]], descending),
    ensures
        joined(ranks, descending, rows, row) == rows.insert(at, row),
    decreases rows.len(),
{
    if at == rows.len() {
        assert(rows.insert(at, row) =~= rows.push(row));
    } else {
        assert(ranks[row].precedes(ranks[rows[rows.len() - 1]], descending));
        let front = rows.drop_last();
        assert forall|k: int| at <= k < front.len() implies ranks[row].precedes(
            ranks[#[trigger] front[k]],
            descending,
        ) by {
            assert(front[k] == rows[k]);
        }
        lemma_joined(ranks, descending, front, row, at);
        assert(rows.insert(at, row) =~= front.insert(at, row).push(rows.last()));
    }
}

/// Row numbers as mathematical values.
pub open spec fn numbers(rows: Seq<usize>) -> Seq<int> {
    rows.map_values(|i: usize| i as int)
}

/// Every row number is one of the rows.
proof fn lemma_ordered_rows(ranks: Seq<RankModel>, descending: bool, count: nat)
    ensures
        ordered(ranks, descending, count).len() == count,
        forall|k: int|
            0 <= k < count ==> 0 <= #[trigger] ordered(ranks, descending, count)[k] < count,
        ordered(ranks, descending, count).no_duplicates(),
    decreases count,
{
    if count > 0 {
        let before = ordered(ranks, descending, (count - 1) as nat);
        lemma_ordered_rows(ranks, descending, (count - 1) as nat);
        lemma_joined_rows(ranks, descending, before, count - 1);
    }
}

proof fn lemma_joined_rows(
    ranks: Seq<RankModel>,
    descending: bool,
    rows: Seq<int>,
    row: int,
)
    requires
        rows.no_duplicates(),
        forall|k: int| 0 <= k < rows.len() ==> 0 <= #[trigger] rows[k] < row,
        row >= 0,
    ensures
        ({
            let all = joined(ranks, descending, rows, row);
            &&& all.len() == rows.len() + 1
            &&& forall|k: int| 0 <= k < all.len() ==> 0 <= #[trigger] all[k] <= row
            &&& forall|k: int|
                0 <= k < all.len() ==> rows.contains(#[trigger] all[k]) || all[k] == row
            &&& all.no_duplicates()
        }),
    decreases rows.len(),
{
    let all = joined(ranks, descending, rows, row);
    if rows.len() > 0 && ranks[row].precedes(ranks[rows.last()], descending) {
        let front = rows.drop_last();
        assert forall|k: int| 0 <= k < front.len() implies 0 <= #[trigger] front[k] < row by {
            assert(front[k] == rows[k]);
        }
        lemma_joined_rows(ranks, descending, front, row);
        let some = joined(ranks, descending, front, row);
        assert forall|k: int| 0 <= k < some.len() implies #[trigger] some[k] != rows.last() by {
            if some[k] != row {
                let j = choose|j: int| 0 <= j < front.len() && front[j] == some[k];
                assert(rows[j] == some[k]);
            }
        }
        assert forall|k: int| 0 <= k < all.len() implies rows.contains(#[trigger] all[k])
            || all[k] == row by {
            if k < some.len() {
                assert(all[k] == some[k]);
                if some[k] != row {
                    let j = choose|j: int| 0 <= j < front.len() && front[j] == some[k];
                    assert(rows[j] == some[k]);
                }
            } else {
                assert(rows[rows.len() - 1] == all[k]);
            }
        }
    } else {
        assert forall|k: int| 0 <= k < all.len() implies rows.contains(#[trigger] all[k])
            || all[k] == row by {
            if k < rows.len() {
                assert(rows[k] == all[k]);
            }
        }
    }
}

/// The rows in order: by their ranks, and those of equal rank as they were.
fn order_of(ranks: &Vec<Rank>, descending: bool) -> (r: Vec<usize>)
    ensures
        numbers(r@) == order(ranks.deep_view(), descending),
{
    let ghost all = ranks.deep_view();
    let mut r: Vec<usize> = Vec::new();
    let mut i: usize = 0;
    assert(numbers(r@) =~= ordered(all, descending, 0));
    while i < ranks.len()
        invariant
            all == ranks.deep_view(),
            i <= ranks@.len(),
            numbers(r@) == ordered(all, descending, i as nat),
            r@.len() == i,
            forall|k: int| 0 <= k < r@.len() ==> #[trigger] r@[k] < i,
        decreases ranks@.len() - i,
    {
        let ghost rows = numbers(r@);
        let mut at: usize = r.len();
        while at > 0 && precedes(&ranks[i], &ranks[r[at - 1]], descending)
            invariant
                all == ranks.deep_view(),
                i < ranks@.len(),
                rows == numbers(r@),
                at <= r@.len(),
                forall|k: int| 0 <= k < r@.len() ==> #[trigger] r@[k] < i,
                forall|k: int|
                    at <= k < rows.len() ==> all[i as int].precedes(
                        all[#[trigger] rows[k]],
                        descending,
                    ),
            decreases at,
        {
            at = at - 1;
            assert(rows[at as int] == r@[at as int]);
            assert(all[rows[at as int]] == ranks@[r@[at as int] as int]@);
        }
        proof {
            if at > 0 {
                assert(rows[at - 1] == r@[at - 1]);
                assert(all[rows[at - 1]] == ranks@[r@[at - 1] as int]@);
            }
            lemma_joined(all, descending, rows, i as int, at as int);
        }
        r.insert(at, i);
        assert(numbers(r@) =~= rows.insert(at as int, i as int));
        i = i + 1;
    }
    r
}

// ── The lists ──────────────────────────────────────────────────────────────

/// What an image is compared by in a column: the number that the column shows where it shows
/// one or a date, else its text. In a list without the column all are alike.
pub open spec fn image_rank(
    image: ImageModel,
    key: SortKey,
    updates: Map<Seq<char>, UpdateModel>,
) -> RankModel {
    match key {
        SortKey::Name => RankModel::Text(image.short_name()),
        SortKey::Version => RankModel::Text(clock::date_text(image.version)),
        SortKey::Created => RankModel::Number(image.created),
        SortKey::Source => RankModel::Text(image.source_short()),
        SortKey::Size => RankModel::Number(image.size),
        SortKey::Update => RankModel::Text(
            ui::update_name(
                match image.primary_reference() {
                    Some(r) => ui::look_up(updates, r),
                    None => None,
                },
            ),
        ),
        _ => RankModel::Number(0),
    }
}

/// What a container is compared by in a column; one that was not sampled has used nothing.
pub open spec fn container_rank(
    c: ContainerModel,
    key: SortKey,
    updates: Map<Seq<char>, UpdateModel>,
    stats: Map<Seq<char>, StatsModel>,
) -> RankModel {
    let sample = ui::look_up(stats, c.image);
    match key {
        SortKey::Name => RankModel::Text(c.name),
        SortKey::Image => RankModel::Text(c.image),
        SortKey::State => RankModel::Text(ui::state_shown(c)),
        SortKey::Cpu => RankModel::Number(
            match sample {
                Some(s) => s.cpu_load,
                None => (-1) as i64,
            },
        ),
        SortKey::Memory => RankModel::Number(
            match sample {
                Some(s) => s.mem_usage,
                None => (-1) as i64,
            },
        ),
        SortKey::Update => RankModel::Text(ui::update_name(ui::look_up(updates, c.image))),
        _ => RankModel::Number(0),
    }
}

/// The images in the order of a column.
pub open spec fn images_by(
    images: Seq<ImageModel>,
    key: SortKey,
    descending: bool,
    updates: Map<Seq<char>, UpdateModel>,
) -> Seq<ImageModel> {
    let ranks = images.map_values(|i: ImageModel| image_rank(i, key, updates));
    rearranged(images, order(ranks, descending))
}

/// The containers in the order of a column.
pub open spec fn containers_by(
    containers: Seq<ContainerModel>,
    key: SortKey,
    descending: bool,
    updates: Map<Seq<char>, UpdateModel>,
    stats: Map<Seq<char>, StatsModel>,
) -> Seq<ContainerModel> {
    let ranks = containers.map_values(|c: ContainerModel| container_rank(c, key, updates, stats));
    rearranged(containers, order(ranks, descending))
}

fn rank_image(image: &ImageInfo, key: SortKey, updates: &RefMap<UpdateInfo>) -> (r: Rank)
    ensures
        r@ == image_rank(image@, key, updates@),
{
    match key {
        SortKey::Name => Rank::Text(image.short_name()),
        SortKey::Version => Rank::Text(date_or_dash(copy_option(&image.version))),
        SortKey::Created => Rank::Number(image.created),
        SortKey::Source => Rank::Text(image.source_short()),
        SortKey::Size => Rank::Number(image.size),
        SortKey::Update => Rank::Text(
            match image.primary_reference() {
                Some(reference) => update_label(updates.get(reference.as_str())),
                None => update_label(None),
            },
        ),
        _ => Rank::Number(0),
    }
}

fn rank_container(
    c: &ContainerInfo,
    key: SortKey,
    updates: &RefMap<UpdateInfo>,
    stats: &RefMap<ContainerStats>,
) -> (r: Rank)
    ensures
        r@ == container_rank(c@, key, updates@, stats@),
{
    match key {
        SortKey::Name => Rank::Text(c.name.clone()),
        SortKey::Image => Rank::Text(c.image.clone()),
        SortKey::State => Rank::Text(state_text(c)),
        SortKey::Cpu => match stats.get(c.image.as_str()) {
            Some(s) => Rank::Number(s.cpu_load),
            None => Rank::Number(-1),
        },
        SortKey::Memory => match stats.get(c.image.as_str()) {
            Some(s) => Rank::Number(s.mem_usage),
            None => Rank::Number(-1),
        },
        SortKey::Update => Rank::Text(update_label(updates.get(c.image.as_str()))),
        _ => Rank::Number(0),
    }
}

/// The images in the order of a column.
pub fn sort_images(
    images: &Vec<ImageInfo>,
    key: SortKey,
    descending: bool,
    updates: &RefMap<UpdateInfo>,
) -> (r: Vec<ImageInfo>)
    ensures
        r.deep_view() == images_by(images.deep_view(), key, descending, updates@),
{
    let ghost all = images.deep_view();
    let mut ranks: Vec<Rank> = Vec::new();
    let mut i: usize = 0;
    while i < images.len()
        invariant
            i <= images@.len(),
            ranks@.len() == i,
            forall|j: int|
                0 <= j < i ==> (#[trigger] ranks@[j])@ == image_rank(images@[j]@, key, updates@),
        decreases images@.len() - i,
    {
        ranks.push(rank_image(&images[i], key, updates));
        i = i + 1;
    }
    let ghost wanted = all.map_values(|i: ImageModel| image_rank(i, key, updates@));
    assert(ranks.deep_view() =~= wanted);
    let rows = order_of(&ranks, descending);
    let ghost placed = order(wanted, descending);
    proof {
        lemma_ordered_rows(wanted, descending, wanted.len());
        assert(placed.len() == rows@.len());
    }
    let mut r: Vec<ImageInfo> = Vec::new();
    let mut k: usize = 0;
    while k < rows.len()
        invariant
            all == images.deep_view(),
            placed == numbers(rows@),
            forall|j: int| 0 <= j < placed.len() ==> 0 <= #[trigger] placed[j] < all.len(),
            k <= rows@.len(),
            r@.len() == k,
            forall|j: int| 0 <= j < k ==> (#[trigger] r@[j])@ == all[placed[j]],
        decreases rows@.len() - k,
    {
        assert(placed[k as int] == rows@[k as int]);
        r.push(images[rows[k]].clone());
        k = k + 1;
    }
    assert(r.deep_view() =~= rearranged(all, placed));
    r
}

/// The containers in the order of a column.
pub fn sort_containers(
    containers: &Vec<ContainerInfo>,
    key: SortKey,
    descending: bool,
    updates: &RefMap<UpdateInfo>,
    stats: &RefMap<ContainerStats>,
) -> (r: Vec<ContainerInfo>)
    ensures
        r.deep_view() == containers_by(
            containers.deep_view(),
            key,
            descending,
            updates@,
            stats@,
        ),
{
    let ghost all = containers.deep_view();
    let mut ranks: Vec<Rank> = Vec::new();
    let mut i: usize = 0;
    while i < containers.len()
        invariant
            i <= containers@.len(),
            ranks@.len() == i,
            forall|j: int|
                0 <= j < i ==> (#[trigger] ranks@[j])@ == container_rank(
                    containers@[j]@,
                    key,
                    updates@,
                    stats@,
                ),
        decreases containers@.len() - i,
    {
        ranks.push(rank_container(&containers[i], key, updates, stats));
        i = i + 1;
    }
    let ghost wanted = all.map_values(
        |c: ContainerModel| container_rank(c, key, updates@, stats@),
    );
    assert(ranks.deep_view() =~= wanted);
    let rows = order_of(&ranks, descending);
    let ghost placed = order(wanted, descending);
    proof {
        lemma_ordered_rows(wanted, descending, wanted.len());
        assert(placed.len() == rows@.len());
    }
    let mut r: Vec<ContainerInfo> = Vec::new();
    let mut k: usize = 0;
    while k < rows.len()
        invariant
            all == containers.deep_view(),
            placed == numbers(rows@),
            forall|j: int| 0 <= j < placed.len() ==> 0 <= #[trigger] placed[j] < all.len(),
            k <= rows@.len(),
            r@.len() == k,
            forall|j: int| 0 <= j < k ==> (#[trigger] r@[j])@ == all[placed[j]],
        decreases rows@.len() - k,
    {
        assert(placed[k as int] == rows@[k as int]);
        r.push(containers[rows[k]].clone());
        k = k + 1;
    }
    assert(r.deep_view() =~= rearranged(all, placed));
    r
}

// ── Laws ───────────────────────────────────────────────────────────────────

/// Of two texts one comes before the other, unless they are equal; and never both.
proof fn lemma_texts_compare(a: Seq<char>, b: Seq<char>)
    ensures
        !(text_before(a, b) && text_before(b, a)),
        !text_before(a, b) && !text_before(b, a) ==> a == b,
    decreases a.len(),
{
    if a.len() > 0 && b.len() > 0 {
        if a[0] == b[0] {
            lemma_texts_compare(a.drop_first(), b.drop_first());
            assert(a =~= seq![a[0]] + a.drop_first());
            assert(b =~= seq![b[0]] + b.drop_first());
        }
    } else if a.len() == 0 && b.len() == 0 {
        assert(a =~= b);
    }
}

/// A text that comes before one that comes before a third comes before the third.
proof fn lemma_texts_chain(a: Seq<char>, b: Seq<char>, c: Seq<char>)
    requires
        text_before(a, b),
        text_before(b, c),
    ensures
        text_before(a, c),
    decreases a.len(),
{
    if a.len() > 0 && a[0] == b[0] && b[0] == c[0] {
        lemma_texts_chain(a.drop_first(), b.drop_first(), c.drop_first());
    }
}

/// If one rank need not stand before a second, nor the second before a third, then the first need
/// not stand before the third.
proof fn lemma_ranks_chain(a: RankModel, b: RankModel, c: RankModel, descending: bool)
    requires
        !a.precedes(b, descending),
        !b.precedes(c, descending),
    ensures
        !a.precedes(c, descending),
{
    match (a, b, c) {
        (RankModel::Text(x), RankModel::Text(y), RankModel::Text(z)) => {
            lemma_texts_compare(x, y);
            lemma_texts_compare(y, z);
            lemma_texts_compare(x, z);
            if descending {
                if text_before(z, x) && text_before(x, y) {
                    lemma_texts_chain(z, x, y);
                }
            } else {
                if text_before(x, z) && text_before(z, y) {
                    lemma_texts_chain(x, z, y);
                }
            }
        },
        _ => {},
    }
}

/// A rank that has to stand before another must not stand behind it.
proof fn lemma_ranks_differ(a: RankModel, b: RankModel, descending: bool)
    ensures
        !(a.precedes(b, descending) && b.precedes(a, descending)),
{
    match (a, b) {
        (RankModel::Text(x), RankModel::Text(y)) => lemma_texts_compare(x, y),
        _ => {},
    }
}

/// Whether no row has to stand before one that stands ahead of it, and rows of equal rank stand
/// as they were.
pub open spec fn in_order(ranks: Seq<RankModel>, descending: bool, rows: Seq<int>) -> bool {
    forall|a: int, b: int|
        #![trigger rows[a], rows[b]]
        0 <= a < b < rows.len() ==> {
            &&& !ranks[rows[b]].precedes(ranks[rows[a]], descending)
            &&& !ranks[rows[a]].precedes(ranks[rows[b]], descending) ==> rows[a] < rows[b]
        }
}

proof fn lemma_joined_in_order(
    ranks: Seq<RankModel>,
    descending: bool,
    rows: Seq<int>,
    row: int,
)
    requires
        in_order(ranks, descending, rows),
        rows.no_duplicates(),
        forall|k: int| 0 <= k < rows.len() ==> 0 <= #[trigger] rows[k] < row,
        row >= 0,
    ensures
        in_order(ranks, descending, joined(ranks, descending, rows, row)),
    decreases rows.len(),
{
    let all = joined(ranks, descending, rows, row);
    lemma_joined_rows(ranks, descending, rows, row);
    if rows.len() > 0 && ranks[row].precedes(ranks[rows.last()], descending) {
        let front = rows.drop_last();
        assert forall|k: int| 0 <= k < front.len() implies 0 <= #[trigger] front[k] < row by {
            assert(front[k] == rows[k]);
        }
        assert(in_order(ranks, descending, front)) by {
            assert forall|a: int, b: int|
                #![trigger front[a], front[b]]
                0 <= a < b < front.len() implies {
                &&& !ranks[front[b]].precedes(ranks[front[a]], descending)
                &&& !ranks[front[a]].precedes(ranks[front[b]], descending) ==> front[a] < front[b]
            } by {
                assert(front[a] == rows[a] && front[b] == rows[b]);
            }
        }
        lemma_joined_in_order(ranks, descending, front, row);
        lemma_joined_rows(ranks, descending, front, row);
        let some = joined(ranks, descending, front, row);
        let last = rows.last();
        assert forall|a: int, b: int|
            #![trigger all[a], all[b]]
            0 <= a < b < all.len() implies {
            &&& !ranks[all[b]].precedes(ranks[all[a]], descending)
            &&& !ranks[all[a]].precedes(ranks[all[b]], descending) ==> all[a] < all[b]
        } by {
            if b < some.len() {
                assert(all[a] == some[a] && all[b] == some[b]);
            } else {
                assert(all[a] == some[a] && all[b] == last);
                if some[a] == row {
                    lemma_ranks_differ(ranks[row], ranks[last], descending);
                } else {
                    let j = choose|j: int| 0 <= j < front.len() && front[j] == some[a];
                    assert(rows[j] == some[a] && rows[rows.len() - 1] == last);
                }
            }
        }
    } else {
        assert forall|a: int, b: int|
            #![trigger all[a], all[b]]
            0 <= a < b < all.len() implies {
            &&& !ranks[all[b]].precedes(ranks[all[a]], descending)
            &&& !ranks[all[a]].precedes(ranks[all[b]], descending) ==> all[a] < all[b]
        } by {
            assert(all[a] == rows[a]);
            if b < rows.len() {
                assert(all[b] == rows[b]);
            } else {
                let n = rows.len() - 1;
                if a < n {
                    assert(!ranks[rows[n]].precedes(ranks[rows[a]], descending));
                    lemma_ranks_chain(ranks[row], ranks[rows[n]], ranks[rows[a]], descending);
                }
            }
        }
    }
}

proof fn lemma_ordered_in_order(ranks: Seq<RankModel>, descending: bool, count: nat)
    ensures
        in_order(ranks, descending, ordered(ranks, descending, count)),
    decreases count,
{
    if count > 0 {
        lemma_ordered_in_order(ranks, descending, (count - 1) as nat);
        lemma_ordered_rows(ranks, descending, (count - 1) as nat);
        lemma_joined_in_order(
            ranks,
            descending,
            ordered(ranks, descending, (count - 1) as nat),
            count - 1,
        );
    }
}

/// Sorting keeps every row once, puts them in order, and leaves rows of equal rank as they were.
pub proof fn law_rows_are_sorted(ranks: Seq<RankModel>, descending: bool)
    ensures
        order(ranks, descending).len() == ranks.len(),
        order(ranks, descending).no_duplicates(),
        forall|k: int|
            0 <= k < ranks.len() ==> 0 <= #[trigger] order(ranks, descending)[k] < ranks.len(),
        in_order(ranks, descending, order(ranks, descending)),
{
    lemma_ordered_rows(ranks, descending, ranks.len());
    lemma_ordered_in_order(ranks, descending, ranks.len());
}

/// Rows that are all alike stay as they are: a list is not touched by a column that it does not
/// have, nor as long as no column was chosen.
pub proof fn law_equal_rows_stay<A>(items: Seq<A>, ranks: Seq<RankModel>, descending: bool)
    requires
        items.len() == ranks.len(),
        forall|i: int, j: int|
            #![trigger ranks[i], ranks[j]]
            0 <= i < ranks.len() && 0 <= j < ranks.len() ==> ranks[i] == ranks[j],
    ensures
        rearranged(items, order(ranks, descending)) == items,
{
    lemma_alike(ranks, descending, ranks.len());
    assert(rearranged(items, order(ranks, descending)) =~= items);
}

proof fn lemma_alike(ranks: Seq<RankModel>, descending: bool, count: nat)
    requires
        count <= ranks.len(),
        forall|i: int, j: int|
            #![trigger ranks[i], ranks[j]]
            0 <= i < ranks.len() && 0 <= j < ranks.len() ==> ranks[i] == ranks[j],
    ensures
        ordered(ranks, descending, count) == Seq::new(count, |i: int| i),
    decreases count,
{
    if count > 0 {
        lemma_alike(ranks, descending, (count - 1) as nat);
        let before = ordered(ranks, descending, (count - 1) as nat);
        if before.len() > 0 {
            assert(ranks[count - 1] == ranks[before.last()]);
            lemma_ranks_differ(ranks[count - 1], ranks[count - 1], descending);
        }
        assert(before.push(count - 1) =~= Seq::new(count, |i: int| i));
    } else {
        assert(ordered(ranks, descending, 0) =~= Seq::new(0, |i: int| i));
    }
}

// ── Laws of the columns ────────────────────────────────────────────────────

/// Texts are compared by the first character in which they differ, whatever stands before and
/// behind it; a text comes behind every one that it starts with, and never before itself.
pub proof fn law_first_difference_decides(
    start: Seq<char>,
    a: char,
    b: char,
    s: Seq<char>,
    t: Seq<char>,
)
    ensures
        a != b ==> (text_before(start + seq![a] + s, start + seq![b] + t) <==> (a as int) < (
        b as int)),
        text_before(start, start + seq![a] + s),
        !text_before(start + s, start),
    decreases start.len(),
{
    let x = start + seq![a] + s;
    let y = start + seq![b] + t;
    if start.len() == 0 {
        assert(x[0] == a && y[0] == b);
        assert(start + s =~= s);
    } else {
        let rest = start.drop_first();
        law_first_difference_decides(rest, a, b, s, t);
        assert(x[0] == start[0] && y[0] == start[0]);
        assert(x.drop_first() =~= rest + seq![a] + s);
        assert(y.drop_first() =~= rest + seq![b] + t);
        assert((start + s)[0] == start[0]);
        assert((start + s).drop_first() =~= rest + s);
    }
}

/// Each column of the images sorts by what it shows: sizes and dates as numbers, all else as
/// texts.
pub proof fn law_image_columns(image: ImageModel, updates: Map<Seq<char>, UpdateModel>)
    ensures
        image_rank(image, SortKey::Size, updates) == RankModel::Number(image.size),
        image_rank(image, SortKey::Created, updates) == RankModel::Number(image.created),
        image_rank(image, SortKey::Name, updates) == RankModel::Text(image.short_name()),
        image_rank(image, SortKey::Source, updates) == RankModel::Text(image.source_short()),
        image.version matches Some(v) ==> image_rank(image, SortKey::Version, updates)
            == RankModel::Text(v),
        image.version is None ==> image_rank(image, SortKey::Version, updates) == RankModel::Text(
            "—"@,
        ),
        image.primary_reference() is None ==> image_rank(image, SortKey::Update, updates)
            == RankModel::Text(ui::update_name(None)),
        image.primary_reference() matches Some(r) ==> updates.contains_key(r) ==> image_rank(
            image,
            SortKey::Update,
            updates,
        ) == RankModel::Text(ui::update_name(Some(updates[r]))),
{
}

/// Each column of the containers sorts by what it shows: loads and memory as numbers, with a
/// container that was not sampled below all others, and all else as texts.
pub proof fn law_container_columns(
    c: ContainerModel,
    updates: Map<Seq<char>, UpdateModel>,
    stats: Map<Seq<char>, StatsModel>,
)
    ensures
        container_rank(c, SortKey::Name, updates, stats) == RankModel::Text(c.name),
        container_rank(c, SortKey::Image, updates, stats) == RankModel::Text(c.image),
        c.status.len() > 0 ==> container_rank(c, SortKey::State, updates, stats)
            == RankModel::Text(c.status),
        c.status.len() == 0 ==> container_rank(c, SortKey::State, updates, stats)
            == RankModel::Text(c.state),
        stats.contains_key(c.image) ==> container_rank(c, SortKey::Cpu, updates, stats)
            == RankModel::Number(stats[c.image].cpu_load) && container_rank(
            c,
            SortKey::Memory,
            updates,
            stats,
        ) == RankModel::Number(stats[c.image].mem_usage),
        !stats.contains_key(c.image) ==> container_rank(c, SortKey::Cpu, updates, stats)
            == RankModel::Number((-1) as i64) && container_rank(
            c,
            SortKey::Memory,
            updates,
            stats,
        ) == RankModel::Number((-1) as i64),
        updates.contains_key(c.image) ==> container_rank(c, SortKey::Update, updates, stats)
            == RankModel::Text(ui::update_name(Some(updates[c.image]))),
{
}

/// Numbers are compared as such and texts as such; from high to low is the other way round.
pub proof fn law_ranks_compare_by_value(a: i64, b: i64, s: Seq<char>, t: Seq<char>)
    ensures
        RankModel::Number(a).precedes(RankModel::Number(b), false) <==> a < b,
        RankModel::Number(a).precedes(RankModel::Number(b), true) <==> b < a,
        RankModel::Text(s).precedes(RankModel::Text(t), false) <==> text_before(s, t),
        RankModel::Text(s).precedes(RankModel::Text(t), true) <==> text_before(t, s),
{
}

/// Whether a list shows the items of another, each once, in the order of these rows.
pub open spec fn shows_each<A>(items: Seq<A>, shown: Seq<A>, rows: Seq<int>) -> bool {
    &&& shown.len() == items.len()
    &&& rows.len() == items.len()
    &&& rows.no_duplicates()
    &&& forall|k: int|
        0 <= k < rows.len() ==> 0 <= #[trigger] rows[k] < items.len() && shown[k] == items[rows[k]]
}

/// To sort loses no row and shows none twice, whatever the column and the direction.
pub proof fn law_sorting_keeps_every_row(
    images: Seq<ImageModel>,
    containers: Seq<ContainerModel>,
    key: SortKey,
    descending: bool,
    updates: Map<Seq<char>, UpdateModel>,
    stats: Map<Seq<char>, StatsModel>,
)
    ensures
        exists|rows: Seq<int>| #[trigger]
            shows_each(images, images_by(images, key, descending, updates), rows),
        exists|rows: Seq<int>| #[trigger]
            shows_each(
                containers,
                containers_by(containers, key, descending, updates, stats),
                rows,
            ),
{
    let ranks = images.map_values(|i: ImageModel| image_rank(i, key, updates));
    law_rows_are_sorted(ranks, descending);
    assert(shows_each(
        images,
        images_by(images, key, descending, updates),
        order(ranks, descending),
    ));
    let others = containers.map_values(
        |c: ContainerModel| container_rank(c, key, updates, stats),
    );
    law_rows_are_sorted(others, descending);
    assert(shows_each(
        containers,
        containers_by(containers, key, descending, updates, stats),
        order(others, descending),
    ));
}

/// Images sorted by size stand from the smallest to the largest, or the other way round.
pub proof fn law_images_are_sorted_by_size(
    images: Seq<ImageModel>,
    descending: bool,
    updates: Map<Seq<char>, UpdateModel>,
)
    ensures
        ({
            let shown = images_by(images, SortKey::Size, descending, updates);
            &&& shown.len() == images.len()
            &&& forall|i: int, j: int|
                #![trigger shown[i], shown[j]]
                0 <= i < j < shown.len() ==> if descending {
                    shown[i].size >= shown[j].size
                } else {
                    shown[i].size <= shown[j].size
                }
        }),
{
    let ranks = images.map_values(|i: ImageModel| image_rank(i, SortKey::Size, updates));
    law_rows_are_sorted(ranks, descending);
    let rows = order(ranks, descending);
    let shown = images_by(images, SortKey::Size, descending, updates);
    assert forall|i: int, j: int|
        #![trigger shown[i], shown[j]]
        0 <= i < j < shown.len() implies if descending {
        shown[i].size >= shown[j].size
    } else {
        shown[i].size <= shown[j].size
    } by {
        assert(shown[i] == images[rows[i]] && shown[j] == images[rows[j]]);
        assert(!ranks[rows[j]].precedes(ranks[rows[i]], descending));
        assert(ranks[rows[i]] == RankModel::Number(images[rows[i]].size));
        assert(ranks[rows[j]] == RankModel::Number(images[rows[j]].size));
    }
}

/// Containers sorted by name stand in the order of their names, or the other way round.
pub proof fn law_containers_are_sorted_by_name(
    containers: Seq<ContainerModel>,
    descending: bool,
    updates: Map<Seq<char>, UpdateModel>,
    stats: Map<Seq<char>, StatsModel>,
)
    ensures
        ({
            let shown = containers_by(containers, SortKey::Name, descending, updates, stats);
            &&& shown.len() == containers.len()
            &&& forall|i: int, j: int|
                #![trigger shown[i], shown[j]]
                0 <= i < j < shown.len() ==> if descending {
                    !text_before(shown[i].name, shown[j].name)
                } else {
                    !text_before(shown[j].name, shown[i].name)
                }
        }),
{
    let ranks = containers.map_values(
        |c: ContainerModel| container_rank(c, SortKey::Name, updates, stats),
    );
    law_rows_are_sorted(ranks, descending);
    let rows = order(ranks, descending);
    let shown = containers_by(containers, SortKey::Name, descending, updates, stats);
    assert forall|i: int, j: int|
        #![trigger shown[i], shown[j]]
        0 <= i < j < shown.len() implies if descending {
        !text_before(shown[i].name, shown[j].name)
    } else {
        !text_before(shown[j].name, shown[i].name)
    } by {
        assert(shown[i] == containers[rows[i]] && shown[j] == containers[rows[j]]);
        assert(!ranks[rows[j]].precedes(ranks[rows[i]], descending));
        assert(ranks[rows[i]] == RankModel::Text(containers[rows[i]].name));
        assert(ranks[rows[j]] == RankModel::Text(containers[rows[j]].name));
    }
}

} // verus!
