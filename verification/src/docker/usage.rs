//! Disk usage, computed like `docker system df`.

use vstd::prelude::*;
use crate::docker::model::DiskUsage;

verus! {

/// An image as the usage report lists it.
#[derive(Debug, Clone, Copy, PartialEq, Eq, Structural)]
pub struct DfImage {
    /// Number of containers that use the image.
    pub containers: i64,
    /// Size with shared layers; negative where unknown.
    pub size: i64,
    /// Size of the layers shared with other images; negative where unknown.
    pub shared_size: i64,
}

/// A container as the usage report lists it.
#[derive(Debug, Clone, Copy, PartialEq, Eq, Structural)]
pub struct DfContainer {
    /// Size of the container's own files.
    pub size_rw: Option<i64>,
    pub running: bool,
}

/// How a volume is used.
#[derive(Debug, Clone, Copy, PartialEq, Eq, Structural)]
pub struct VolumeUse {
    /// Size of the volume; negative where unknown.
    pub size: i64,
    /// Number of containers that refer to the volume.
    pub ref_count: i64,
}

/// A volume as the usage report lists it.
#[derive(Debug, Clone, Copy, PartialEq, Eq, Structural)]
pub struct DfVolume {
    pub usage: Option<VolumeUse>,
}

/// A build cache record as the usage report lists it.
#[derive(Debug, Clone, Copy, PartialEq, Eq, Structural)]
pub struct DfCache {
    pub size: Option<i64>,
    pub in_use: Option<bool>,
    pub shared: Option<bool>,
}

/// The engine's usage report.
#[derive(Debug, Clone)]
pub struct DfReport {
    /// Size of all layers on disk, each counted once.
    pub layers_size: Option<i64>,
    pub images: Option<Vec<DfImage>>,
    pub containers: Option<Vec<DfContainer>>,
    pub volumes: Option<Vec<DfVolume>>,
    pub build_cache: Option<Vec<DfCache>>,
}

// ── What each entry counts for ─────────────────────────────────────────────

impl DfImage {
    /// Whether a container uses the image.
    pub open spec fn active(self) -> bool {
        self.containers > 0
    }

    /// The unshared size of an image that no container uses.
    pub open spec fn reclaimable(self) -> int {
        if self.active() || self.size < 0 {
            0
        } else {
            let shared = if self.shared_size > 0 { self.shared_size as int } else { 0 };
            if self.size > shared { self.size - shared } else { 0 }
        }
    }
}

/// A number that may be missing.
pub open spec fn or_zero(n: Option<i64>) -> int {
    match n {
        Some(v) => v as int,
        None => 0,
    }
}

impl DfContainer {
    /// The size of the container's own files.
    pub open spec fn total(self) -> int {
        or_zero(self.size_rw)
    }

    /// The same, where the container is stopped.
    pub open spec fn reclaimable(self) -> int {
        if self.running { 0 } else { self.total() }
    }
}

impl DfVolume {
    /// Whether the volume's size is known.
    pub open spec fn known(self) -> bool {
        self.usage is Some && self.usage->0.size >= 0
    }

    /// Whether a container refers to the volume.
    pub open spec fn active(self) -> bool {
        self.known() && self.usage->0.ref_count > 0
    }

    /// The size of the volume.
    pub open spec fn total(self) -> int {
        if self.known() { self.usage->0.size as int } else { 0 }
    }

    /// The same, where no container refers to it.
    pub open spec fn reclaimable(self) -> int {
        if self.active() { 0 } else { self.total() }
    }
}

impl DfCache {
    /// The size of the record.
    pub open spec fn total(self) -> int {
        or_zero(self.size)
    }

    /// The same, where the record is neither in use nor shared.
    pub open spec fn reclaimable(self) -> int {
        if self.in_use == Some(true) || self.shared == Some(true) { 0 } else { self.total() }
    }
}

// ── Sums ───────────────────────────────────────────────────────────────────

/// The sum of a list.
pub open spec fn sum(xs: Seq<int>) -> int
    decreases xs.len(),
{
    if xs.len() == 0 {
        0
    } else {
        sum(xs.drop_last()) + xs.last()
    }
}

/// Whether a list can be added up, from left to right, in 64 bits.
pub open spec fn adds_up(xs: Seq<int>) -> bool {
    forall|k: int| 0 <= k <= xs.len() ==> i64::MIN <= #[trigger] sum(xs.take(k)) <= i64::MAX
}

/// The number of entries that hold.
pub open spec fn count(bs: Seq<bool>) -> nat
    decreases bs.len(),
{
    if bs.len() == 0 {
        0
    } else {
        count(bs.drop_last()) + (if bs.last() { 1nat } else { 0nat })
    }
}

/// The entries of a list that may be missing.
pub open spec fn entries<T>(list: Option<Vec<T>>) -> Seq<T> {
    match list {
        Some(v) => v@,
        None => Seq::empty(),
    }
}

impl DfReport {
    pub open spec fn image_bytes(&self) -> Seq<int> {
        entries(self.images).map_values(|i: DfImage| i.reclaimable())
    }

    pub open spec fn images_in_use(&self) -> Seq<bool> {
        entries(self.images).map_values(|i: DfImage| i.active())
    }

    pub open spec fn container_bytes(&self) -> Seq<int> {
        entries(self.containers).map_values(|c: DfContainer| c.total())
    }

    pub open spec fn stopped_bytes(&self) -> Seq<int> {
        entries(self.containers).map_values(|c: DfContainer| c.reclaimable())
    }

    pub open spec fn containers_running(&self) -> Seq<bool> {
        entries(self.containers).map_values(|c: DfContainer| c.running)
    }

    pub open spec fn volume_bytes(&self) -> Seq<int> {
        entries(self.volumes).map_values(|v: DfVolume| v.total())
    }

    pub open spec fn unused_volume_bytes(&self) -> Seq<int> {
        entries(self.volumes).map_values(|v: DfVolume| v.reclaimable())
    }

    pub open spec fn volumes_in_use(&self) -> Seq<bool> {
        entries(self.volumes).map_values(|v: DfVolume| v.active())
    }

    pub open spec fn cache_bytes(&self) -> Seq<int> {
        entries(self.build_cache).map_values(|c: DfCache| c.total())
    }

    pub open spec fn unused_cache_bytes(&self) -> Seq<int> {
        entries(self.build_cache).map_values(|c: DfCache| c.reclaimable())
    }

    /// Whether every category can be added up in 64 bits.
    pub open spec fn adds_up(&self) -> bool {
        &&& adds_up(self.image_bytes())
        &&& adds_up(self.container_bytes())
        &&& adds_up(self.stopped_bytes())
        &&& adds_up(self.volume_bytes())
        &&& adds_up(self.unused_volume_bytes())
        &&& adds_up(self.cache_bytes())
        &&& adds_up(self.unused_cache_bytes())
    }

    /// The usage that a report amounts to.
    pub open spec fn usage(&self) -> DiskUsage {
        DiskUsage {
            images_total: or_zero(self.layers_size) as i64,
            images_reclaimable: sum(self.image_bytes()) as i64,
            images_count: entries(self.images).len() as usize,
            images_active: count(self.images_in_use()) as usize,
            containers_total: sum(self.container_bytes()) as i64,
            containers_reclaimable: sum(self.stopped_bytes()) as i64,
            containers_count: entries(self.containers).len() as usize,
            containers_active: count(self.containers_running()) as usize,
            volumes_total: sum(self.volume_bytes()) as i64,
            volumes_reclaimable: sum(self.unused_volume_bytes()) as i64,
            volumes_count: entries(self.volumes).len() as usize,
            volumes_active: count(self.volumes_in_use()) as usize,
            build_cache_total: sum(self.cache_bytes()) as i64,
            build_cache_reclaimable: sum(self.unused_cache_bytes()) as i64,
            build_cache_count: entries(self.build_cache).len() as usize,
        }
    }
}

/// A list of bytes as integers.
pub open spec fn ints(xs: Seq<i64>) -> Seq<int> {
    xs.map_values(|x: i64| x as int)
}

/// The sum of a list, where every step of it fits in 64 bits.
fn checked_sum(xs: &Vec<i64>) -> (r: Option<i64>)
    ensures
        r is Some <==> adds_up(ints(xs@)),
        r matches Some(v) ==> v == sum(ints(xs@)),
{
    let ghost all = ints(xs@);
    let mut acc: i64 = 0;
    let mut i: usize = 0;
    while i < xs.len()
        invariant
            all == ints(xs@),
            i <= xs@.len(),
            acc == sum(all.take(i as int)),
            forall|k: int|
                0 <= k <= i ==> i64::MIN <= #[trigger] sum(all.take(k)) <= i64::MAX,
        decreases xs@.len() - i,
    {
        assert(all.take(i + 1).drop_last() =~= all.take(i as int));
        assert(all.take(i + 1).last() == xs@[i as int]);
        match acc.checked_add(xs[i]) {
            Some(next) => {
                acc = next;
            },
            None => {
                assert(!(i64::MIN <= sum(all.take(i + 1)) <= i64::MAX));
                return None;
            },
        }
        i = i + 1;
    }
    assert(all.take(all.len() as int) =~= all);
    Some(acc)
}

/// The number of entries that hold.
fn count_true(bs: &Vec<bool>) -> (r: usize)
    ensures
        r == count(bs@),
        r <= bs@.len(),
{
    let mut n: usize = 0;
    let mut i: usize = 0;
    while i < bs.len()
        invariant
            i <= bs@.len(),
            n == count(bs@.take(i as int)),
            n <= i,
        decreases bs@.len() - i,
    {
        assert(bs@.take(i + 1).drop_last() =~= bs@.take(i as int));
        if bs[i] {
            n = n + 1;
        }
        i = i + 1;
    }
    assert(bs@.take(bs@.len() as int) =~= bs@);
    n
}

/// Reclaimable bytes and use of each image.
fn image_columns(images: &Vec<DfImage>) -> (r: (Vec<i64>, Vec<bool>))
    ensures
        ints(r.0@) == images@.map_values(|i: DfImage| i.reclaimable()),
        r.1@ == images@.map_values(|i: DfImage| i.active()),
{
    let mut bytes: Vec<i64> = Vec::new();
    let mut used: Vec<bool> = Vec::new();
    let mut k: usize = 0;
    while k < images.len()
        invariant
            k <= images@.len(),
            bytes@.len() == k,
            used@.len() == k,
            forall|j: int| 0 <= j < k ==> bytes@[j] == images@[j].reclaimable(),
            forall|j: int| 0 <= j < k ==> used@[j] == images@[j].active(),
        decreases images@.len() - k,
    {
        let img = images[k];
        if img.containers > 0 {
            bytes.push(0);
            used.push(true);
        } else if img.size >= 0 {
            let shared: i64 = if img.shared_size > 0 { img.shared_size } else { 0 };
            let own: i64 = img.size - shared;
            bytes.push(if own > 0 { own } else { 0 });
            used.push(false);
        } else {
            bytes.push(0);
            used.push(false);
        }
        k = k + 1;
    }
    assert(ints(bytes@) =~= images@.map_values(|i: DfImage| i.reclaimable()));
    assert(used@ =~= images@.map_values(|i: DfImage| i.active()));
    (bytes, used)
}

/// Bytes, reclaimable bytes and state of each container.
fn container_columns(containers: &Vec<DfContainer>) -> (r: (Vec<i64>, Vec<i64>, Vec<bool>))
    ensures
        ints(r.0@) == containers@.map_values(|c: DfContainer| c.total()),
        ints(r.1@) == containers@.map_values(|c: DfContainer| c.reclaimable()),
        r.2@ == containers@.map_values(|c: DfContainer| c.running),
{
    let mut total: Vec<i64> = Vec::new();
    let mut free: Vec<i64> = Vec::new();
    let mut used: Vec<bool> = Vec::new();
    let mut k: usize = 0;
    while k < containers.len()
        invariant
            k <= containers@.len(),
            total@.len() == k,
            free@.len() == k,
            used@.len() == k,
            forall|j: int| 0 <= j < k ==> total@[j] == containers@[j].total(),
            forall|j: int| 0 <= j < k ==> free@[j] == containers@[j].reclaimable(),
            forall|j: int| 0 <= j < k ==> used@[j] == containers@[j].running,
        decreases containers@.len() - k,
    {
        let c = containers[k];
        let size: i64 = c.size_rw.unwrap_or(0);
        total.push(size);
        free.push(if c.running { 0 } else { size });
        used.push(c.running);
        k = k + 1;
    }
    assert(ints(total@) =~= containers@.map_values(|c: DfContainer| c.total()));
    assert(ints(free@) =~= containers@.map_values(|c: DfContainer| c.reclaimable()));
    assert(used@ =~= containers@.map_values(|c: DfContainer| c.running));
    (total, free, used)
}

/// Bytes, reclaimable bytes and use of each volume.
fn volume_columns(volumes: &Vec<DfVolume>) -> (r: (Vec<i64>, Vec<i64>, Vec<bool>))
    ensures
        ints(r.0@) == volumes@.map_values(|v: DfVolume| v.total()),
        ints(r.1@) == volumes@.map_values(|v: DfVolume| v.reclaimable()),
        r.2@ == volumes@.map_values(|v: DfVolume| v.active()),
{
    let mut total: Vec<i64> = Vec::new();
    let mut free: Vec<i64> = Vec::new();
    let mut used: Vec<bool> = Vec::new();
    let mut k: usize = 0;
    while k < volumes.len()
        invariant
            k <= volumes@.len(),
            total@.len() == k,
            free@.len() == k,
            used@.len() == k,
            forall|j: int| 0 <= j < k ==> total@[j] == volumes@[j].total(),
            forall|j: int| 0 <= j < k ==> free@[j] == volumes@[j].reclaimable(),
            forall|j: int| 0 <= j < k ==> used@[j] == volumes@[j].active(),
        decreases volumes@.len() - k,
    {
        let mut size: i64 = 0;
        let mut active = false;
        match volumes[k].usage {
            Some(u) => {
                if u.size >= 0 {
                    size = u.size;
                    active = u.ref_count > 0;
                }
            },
            None => {},
        }
        total.push(size);
        free.push(if active { 0 } else { size });
        used.push(active);
        k = k + 1;
    }
    assert(ints(total@) =~= volumes@.map_values(|v: DfVolume| v.total()));
    assert(ints(free@) =~= volumes@.map_values(|v: DfVolume| v.reclaimable()));
    assert(used@ =~= volumes@.map_values(|v: DfVolume| v.active()));
    (total, free, used)
}

/// Bytes and reclaimable bytes of each build cache record.
fn cache_columns(cache: &Vec<DfCache>) -> (r: (Vec<i64>, Vec<i64>))
    ensures
        ints(r.0@) == cache@.map_values(|c: DfCache| c.total()),
        ints(r.1@) == cache@.map_values(|c: DfCache| c.reclaimable()),
{
    let mut total: Vec<i64> = Vec::new();
    let mut free: Vec<i64> = Vec::new();
    let mut k: usize = 0;
    while k < cache.len()
        invariant
            k <= cache@.len(),
            total@.len() == k,
            free@.len() == k,
            forall|j: int| 0 <= j < k ==> total@[j] == cache@[j].total(),
            forall|j: int| 0 <= j < k ==> free@[j] == cache@[j].reclaimable(),
        decreases cache@.len() - k,
    {
        let c = cache[k];
        let size: i64 = c.size.unwrap_or(0);
        let kept = c.in_use.unwrap_or(false) || c.shared.unwrap_or(false);
        total.push(size);
        free.push(if kept { 0 } else { size });
        k = k + 1;
    }
    assert(ints(total@) =~= cache@.map_values(|c: DfCache| c.total()));
    assert(ints(free@) =~= cache@.map_values(|c: DfCache| c.reclaimable()));
    (total, free)
}

/// The usage that a report amounts to, where every sum of it fits in 64 bits.
pub fn try_disk_usage(df: &DfReport) -> (r: Option<DiskUsage>)
    ensures
        r is Some <==> df.adds_up(),
        r matches Some(u) ==> u == df.usage(),
{
    let no_image: Vec<DfImage> = Vec::new();
    let images = match &df.images {
        Some(v) => v,
        None => &no_image,
    };
    let no_container: Vec<DfContainer> = Vec::new();
    let containers = match &df.containers {
        Some(v) => v,
        None => &no_container,
    };
    let no_volume: Vec<DfVolume> = Vec::new();
    let volumes = match &df.volumes {
        Some(v) => v,
        None => &no_volume,
    };
    let no_cache: Vec<DfCache> = Vec::new();
    let cache = match &df.build_cache {
        Some(v) => v,
        None => &no_cache,
    };
    let (image_bytes, images_used) = image_columns(images);
    let (container_bytes, stopped_bytes, running) = container_columns(containers);
    let (volume_bytes, unused_bytes, volumes_used) = volume_columns(volumes);
    let (cache_bytes, unused_cache) = cache_columns(cache);
    assert(images@ =~= entries(df.images));
    assert(containers@ =~= entries(df.containers));
    assert(volumes@ =~= entries(df.volumes));
    assert(cache@ =~= entries(df.build_cache));
    match (
        checked_sum(&image_bytes),
        checked_sum(&container_bytes),
        checked_sum(&stopped_bytes),
        checked_sum(&volume_bytes),
        checked_sum(&unused_bytes),
        checked_sum(&cache_bytes),
        checked_sum(&unused_cache),
    ) {
        (
            Some(images_reclaimable),
            Some(containers_total),
            Some(containers_reclaimable),
            Some(volumes_total),
            Some(volumes_reclaimable),
            Some(build_cache_total),
            Some(build_cache_reclaimable),
        ) => Some(
            DiskUsage {
                images_total: df.layers_size.unwrap_or(0),
                images_reclaimable,
                images_count: images.len(),
                images_active: count_true(&images_used),
                containers_total,
                containers_reclaimable,
                containers_count: containers.len(),
                containers_active: count_true(&running),
                volumes_total,
                volumes_reclaimable,
                volumes_count: volumes.len(),
                volumes_active: count_true(&volumes_used),
                build_cache_total,
                build_cache_reclaimable,
                build_cache_count: cache.len(),
            },
        ),
        _ => None,
    }
}

/// Compute [`DiskUsage`] from a usage report, matching `docker system df`.
pub fn compute_disk_usage(df: &DfReport) -> (r: DiskUsage)
    requires
        df.adds_up(),
    ensures
        r == df.usage(),
{
    match try_disk_usage(df) {
        Some(u) => u,
        None => DiskUsage::default(),
    }
}

// ── Laws ───────────────────────────────────────────────────────────────────

/// The number of entries that hold is no larger than the number of entries.
proof fn lemma_count_bounded(bs: Seq<bool>)
    ensures
        count(bs) <= bs.len(),
    decreases bs.len(),
{
    if bs.len() > 0 {
        lemma_count_bounded(bs.drop_last());
    }
}

/// A list that is pointwise no larger than another has no larger a sum.
proof fn lemma_sum_monotonic(xs: Seq<int>, ys: Seq<int>)
    requires
        xs.len() == ys.len(),
        forall|i: int| 0 <= i < xs.len() ==> xs[i] <= ys[i],
    ensures
        sum(xs) <= sum(ys),
    decreases xs.len(),
{
    if xs.len() > 0 {
        lemma_sum_monotonic(xs.drop_last(), ys.drop_last());
    }
}

/// A list of sizes that are not negative has no negative sum.
proof fn lemma_sum_nonnegative(xs: Seq<int>)
    requires
        forall|i: int| 0 <= i < xs.len() ==> xs[i] >= 0,
    ensures
        sum(xs) >= 0,
    decreases xs.len(),
{
    if xs.len() > 0 {
        lemma_sum_nonnegative(xs.drop_last());
    }
}

/// No category has more active entries than entries.
pub proof fn law_active_within_count(df: DfReport)
    ensures
        df.usage().images_active <= df.usage().images_count,
        df.usage().containers_active <= df.usage().containers_count,
        df.usage().volumes_active <= df.usage().volumes_count,
{
    lemma_count_bounded(df.images_in_use());
    lemma_count_bounded(df.containers_running());
    lemma_count_bounded(df.volumes_in_use());
    lemma_entries_len(df.images);
    lemma_entries_len(df.containers);
    lemma_entries_len(df.volumes);
}

/// A list in memory has a length that fits.
proof fn lemma_entries_len<T>(list: Option<Vec<T>>)
    ensures
        entries(list).len() <= usize::MAX,
{
    match list {
        Some(v) => {
            assert(v.len() <= usize::MAX);
        },
        None => {},
    }
}

/// What can be reclaimed is never negative for images and volumes, and never more than the
/// total for volumes; where no entry has a negative size, the same holds of containers and the
/// build cache.
pub proof fn law_reclaimable_within_total(df: DfReport)
    requires
        df.adds_up(),
    ensures
        0 <= df.usage().images_reclaimable,
        0 <= df.usage().volumes_reclaimable <= df.usage().volumes_total,
        (forall|i: int|
            0 <= i < entries(df.containers).len() ==> #[trigger] entries(df.containers)[i].total()
                >= 0) ==> 0 <= df.usage().containers_reclaimable <= df.usage().containers_total,
        (forall|i: int|
            0 <= i < entries(df.build_cache).len() ==> #[trigger] entries(
                df.build_cache,
            )[i].total() >= 0) ==> 0 <= df.usage().build_cache_reclaimable
            <= df.usage().build_cache_total,
{
    assert(forall|xs: Seq<int>| adds_up(xs) ==> i64::MIN <= #[trigger] sum(xs) <= i64::MAX) by {
        assert forall|xs: Seq<int>| adds_up(xs) implies i64::MIN <= #[trigger] sum(xs)
            <= i64::MAX by {
            assert(xs.take(xs.len() as int) =~= xs);
        }
    }
    lemma_sum_nonnegative(df.image_bytes());
    lemma_sum_nonnegative(df.unused_volume_bytes());
    lemma_sum_monotonic(df.unused_volume_bytes(), df.volume_bytes());
    if forall|i: int|
        0 <= i < entries(df.containers).len() ==> #[trigger] entries(df.containers)[i].total()
            >= 0 {
        lemma_sum_nonnegative(df.stopped_bytes());
        lemma_sum_monotonic(df.stopped_bytes(), df.container_bytes());
    }
    if forall|i: int|
        0 <= i < entries(df.build_cache).len() ==> #[trigger] entries(df.build_cache)[i].total()
            >= 0 {
        lemma_sum_nonnegative(df.unused_cache_bytes());
        lemma_sum_monotonic(df.unused_cache_bytes(), df.cache_bytes());
    }
}

/// A list with one more entry: its sum grows by that entry, and it adds up exactly when the
/// shorter list does and the new sum fits.
proof fn lemma_sum_push(xs: Seq<int>, x: int)
    ensures
        sum(xs.push(x)) == sum(xs) + x,
        adds_up(xs.push(x)) <==> adds_up(xs) && i64::MIN <= sum(xs) + x <= i64::MAX,
        adds_up(xs) ==> i64::MIN <= sum(xs) <= i64::MAX,
{
    let more = xs.push(x);
    assert(more.drop_last() =~= xs);
    assert(xs.take(xs.len() as int) =~= xs);
    assert(more.take(more.len() as int) =~= more);
    assert forall|k: int| 0 <= k <= xs.len() implies more.take(k) == #[trigger] xs.take(k) by {
        assert(more.take(k) =~= xs.take(k));
    }
    if adds_up(more) {
        assert forall|k: int| 0 <= k <= xs.len() implies i64::MIN <= #[trigger] sum(xs.take(k))
            <= i64::MAX by {
            assert(more.take(k) == xs.take(k));
            assert(i64::MIN <= sum(more.take(k)) <= i64::MAX);
        }
        assert(i64::MIN <= sum(more.take(more.len() as int)) <= i64::MAX);
    }
    if adds_up(xs) && i64::MIN <= sum(xs) + x <= i64::MAX {
        assert forall|k: int| 0 <= k <= more.len() implies i64::MIN <= #[trigger] sum(more.take(k))
            <= i64::MAX by {
            if k <= xs.len() {
                assert(more.take(k) == xs.take(k));
            }
        }
    }
}

/// One more entry adds one to the number of those that hold, where it holds.
proof fn lemma_count_push(bs: Seq<bool>, b: bool)
    ensures
        count(bs.push(b)) == count(bs) + (if b { 1int } else { 0int }),
{
    assert(bs.push(b).drop_last() =~= bs);
}

/// A report that lists nothing uses nothing but the layers that the engine counts, and always
/// adds up; a list that is missing counts like an empty one.
pub proof fn law_nothing_listed_uses_nothing(df: DfReport)
    requires
        df.images matches Some(v) ==> v@.len() == 0,
        df.containers matches Some(v) ==> v@.len() == 0,
        df.volumes matches Some(v) ==> v@.len() == 0,
        df.build_cache matches Some(v) ==> v@.len() == 0,
    ensures
        df.adds_up(),
        df.layers_size is None ==> df.usage().images_total == 0,
        df.layers_size matches Some(n) ==> df.usage().images_total == n,
        df.usage().images_reclaimable == 0 && df.usage().images_count == 0
            && df.usage().images_active == 0,
        df.usage().containers_total == 0 && df.usage().containers_reclaimable == 0
            && df.usage().containers_count == 0 && df.usage().containers_active == 0,
        df.usage().volumes_total == 0 && df.usage().volumes_reclaimable == 0
            && df.usage().volumes_count == 0 && df.usage().volumes_active == 0,
        df.usage().build_cache_total == 0 && df.usage().build_cache_reclaimable == 0
            && df.usage().build_cache_count == 0,
{
    assert(df.image_bytes() =~= Seq::<int>::empty());
    assert(df.container_bytes() =~= Seq::<int>::empty());
    assert(df.stopped_bytes() =~= Seq::<int>::empty());
    assert(df.volume_bytes() =~= Seq::<int>::empty());
    assert(df.unused_volume_bytes() =~= Seq::<int>::empty());
    assert(df.cache_bytes() =~= Seq::<int>::empty());
    assert(df.unused_cache_bytes() =~= Seq::<int>::empty());
    assert(df.images_in_use() =~= Seq::<bool>::empty());
    assert(df.containers_running() =~= Seq::<bool>::empty());
    assert(df.volumes_in_use() =~= Seq::<bool>::empty());
    assert(forall|k: int| #[trigger] sum(Seq::<int>::empty().take(k)) == 0 || k != 0) by {
        assert(Seq::<int>::empty().take(0) =~= Seq::<int>::empty());
    }
}

/// Whether two reports say the same of everything but their volumes.
pub open spec fn same_but_volumes(a: DfReport, b: DfReport) -> bool {
    &&& a.layers_size == b.layers_size
    &&& a.images == b.images
    &&& a.containers == b.containers
    &&& a.build_cache == b.build_cache
}

/// A further volume adds its size to the total where it is known, and to what can be reclaimed
/// exactly where, besides, no container refers to it; it counts as active exactly where its size
/// is known and a container refers to it. Nothing else changes.
pub proof fn law_volume_counts_by_its_references(
    a: DfReport,
    b: DfReport,
    listed: Vec<DfVolume>,
    more: Vec<DfVolume>,
    v: DfVolume,
)
    requires
        same_but_volumes(a, b),
        a.volumes == Some(listed),
        b.volumes == Some(more),
        more@ == listed@.push(v),
        a.adds_up(),
    ensures
        ({
            let (t, u) = (a.usage(), b.usage());
            let known = v.usage is Some && v.usage->0.size >= 0;
            let size: int = if known { v.usage->0.size as int } else { 0 };
            let unused: int = if known && v.usage->0.ref_count <= 0 { size } else { 0 };
            &&& b.adds_up() <==> t.volumes_total + size <= i64::MAX && t.volumes_reclaimable
                + unused <= i64::MAX
            &&& b.adds_up() ==> {
                &&& u.volumes_total == t.volumes_total + size
                &&& u.volumes_reclaimable == t.volumes_reclaimable + unused
                &&& u.volumes_count == t.volumes_count + 1
                &&& u.volumes_active == t.volumes_active + (if known && v.usage->0.ref_count >= 1 {
                    1int
                } else {
                    0
                })
                &&& u == (DiskUsage {
                    volumes_total: u.volumes_total,
                    volumes_reclaimable: u.volumes_reclaimable,
                    volumes_count: u.volumes_count,
                    volumes_active: u.volumes_active,
                    ..t
                })
            }
        }),
{
    lemma_sum_push(a.volume_bytes(), v.total());
    lemma_sum_push(a.unused_volume_bytes(), v.reclaimable());
    lemma_count_push(a.volumes_in_use(), v.active());
    lemma_count_bounded(a.volumes_in_use());
    lemma_count_bounded(b.volumes_in_use());
    lemma_entries_len(b.volumes);
    lemma_sum_nonnegative(a.volume_bytes());
    lemma_sum_nonnegative(a.unused_volume_bytes());
    assert(b.volume_bytes() =~= a.volume_bytes().push(v.total()));
    assert(b.unused_volume_bytes() =~= a.unused_volume_bytes().push(v.reclaimable()));
    assert(b.volumes_in_use() =~= a.volumes_in_use().push(v.active()));
    assert(b.image_bytes() =~= a.image_bytes());
    assert(b.container_bytes() =~= a.container_bytes());
    assert(b.stopped_bytes() =~= a.stopped_bytes());
    assert(b.cache_bytes() =~= a.cache_bytes());
    assert(b.unused_cache_bytes() =~= a.unused_cache_bytes());
}

/// A report whose only volume has a known size: all of it can be reclaimed exactly where no
/// container refers to the volume, and the volume is active exactly where one does.
pub proof fn law_one_volume(df: DfReport, listed: Vec<DfVolume>, size: i64, ref_count: i64)
    requires
        df.volumes == Some(listed),
        listed@ == seq![(DfVolume { usage: Some(VolumeUse { size, ref_count }) })],
        size >= 0,
    ensures
        df.usage().volumes_total == size,
        df.usage().volumes_reclaimable == (if ref_count <= 0 { size } else { 0 }),
        df.usage().volumes_active == (if ref_count >= 1 { 1int } else { 0 }),
        df.usage().volumes_count == 1,
{
    let v = listed@[0];
    lemma_sum_push(Seq::empty(), v.total());
    lemma_sum_push(Seq::empty(), v.reclaimable());
    lemma_count_push(Seq::empty(), v.active());
    assert(df.volume_bytes() =~= Seq::<int>::empty().push(v.total()));
    assert(df.unused_volume_bytes() =~= Seq::<int>::empty().push(v.reclaimable()));
    assert(df.volumes_in_use() =~= Seq::<bool>::empty().push(v.active()));
}

/// Whether two reports say the same of everything but their images.
pub open spec fn same_but_images(a: DfReport, b: DfReport) -> bool {
    &&& a.layers_size == b.layers_size
    &&& a.containers == b.containers
    &&& a.volumes == b.volumes
    &&& a.build_cache == b.build_cache
}

/// A further image never changes the total, which is the size of all layers. It is active
/// exactly where a container uses it. Otherwise, where its size is known, what it does not share
/// can be reclaimed, and an unknown shared size counts as none.
pub proof fn law_image_counts_by_its_containers(
    a: DfReport,
    b: DfReport,
    listed: Vec<DfImage>,
    more: Vec<DfImage>,
    i: DfImage,
)
    requires
        same_but_images(a, b),
        a.images == Some(listed),
        b.images == Some(more),
        more@ == listed@.push(i),
        a.adds_up(),
        b.adds_up(),
    ensures
        ({
            let (t, u) = (a.usage(), b.usage());
            let grown = u.images_reclaimable - t.images_reclaimable;
            &&& u.images_total == t.images_total
            &&& u.images_count == t.images_count + 1
            &&& u.images_active == t.images_active + (if i.containers >= 1 { 1int } else { 0 })
            &&& i.containers >= 1 ==> grown == 0
            &&& i.size < 0 ==> grown == 0
            &&& i.containers <= 0 && i.size >= 0 && i.shared_size <= 0 ==> grown == i.size
            &&& i.containers <= 0 && 0 <= i.shared_size <= i.size ==> grown + i.shared_size
                == i.size
            &&& i.shared_size >= i.size && i.shared_size >= 0 ==> grown == 0
            &&& u == (DiskUsage {
                images_reclaimable: u.images_reclaimable,
                images_count: u.images_count,
                images_active: u.images_active,
                ..t
            })
        }),
{
    lemma_sum_push(a.image_bytes(), i.reclaimable());
    lemma_sum_push(b.image_bytes(), 0);
    lemma_count_push(a.images_in_use(), i.active());
    lemma_count_bounded(a.images_in_use());
    lemma_count_bounded(b.images_in_use());
    lemma_entries_len(b.images);
    assert(b.image_bytes() =~= a.image_bytes().push(i.reclaimable()));
    assert(b.images_in_use() =~= a.images_in_use().push(i.active()));
    assert(b.volume_bytes() =~= a.volume_bytes());
    assert(b.unused_volume_bytes() =~= a.unused_volume_bytes());
    assert(b.container_bytes() =~= a.container_bytes());
    assert(b.stopped_bytes() =~= a.stopped_bytes());
    assert(b.cache_bytes() =~= a.cache_bytes());
    assert(b.unused_cache_bytes() =~= a.unused_cache_bytes());
}

/// Whether two reports say the same of everything but their containers.
pub open spec fn same_but_containers(a: DfReport, b: DfReport) -> bool {
    &&& a.layers_size == b.layers_size
    &&& a.images == b.images
    &&& a.volumes == b.volumes
    &&& a.build_cache == b.build_cache
}

/// A further container adds the size of its own files to the total, and to what can be reclaimed
/// exactly where it does not run; it is active exactly where it runs. An unknown size is none.
pub proof fn law_container_counts_by_its_state(
    a: DfReport,
    b: DfReport,
    listed: Vec<DfContainer>,
    more: Vec<DfContainer>,
    c: DfContainer,
)
    requires
        same_but_containers(a, b),
        a.containers == Some(listed),
        b.containers == Some(more),
        more@ == listed@.push(c),
        a.adds_up(),
        b.adds_up(),
    ensures
        ({
            let (t, u) = (a.usage(), b.usage());
            let total = u.containers_total - t.containers_total;
            let free = u.containers_reclaimable - t.containers_reclaimable;
            &&& c.size_rw is None ==> total == 0 && free == 0
            &&& c.size_rw matches Some(n) ==> total == n
            &&& c.running ==> free == 0 && u.containers_active == t.containers_active + 1
            &&& !c.running ==> free == total && u.containers_active == t.containers_active
            &&& u.containers_count == t.containers_count + 1
            &&& u == (DiskUsage {
                containers_total: u.containers_total,
                containers_reclaimable: u.containers_reclaimable,
                containers_count: u.containers_count,
                containers_active: u.containers_active,
                ..t
            })
        }),
{
    lemma_sum_push(a.container_bytes(), c.total());
    lemma_sum_push(a.stopped_bytes(), c.reclaimable());
    lemma_count_push(a.containers_running(), c.running);
    lemma_count_bounded(a.containers_running());
    lemma_count_bounded(b.containers_running());
    lemma_entries_len(b.containers);
    assert(b.container_bytes() =~= a.container_bytes().push(c.total()));
    assert(b.stopped_bytes() =~= a.stopped_bytes().push(c.reclaimable()));
    assert(b.containers_running() =~= a.containers_running().push(c.running));
    assert(b.volume_bytes() =~= a.volume_bytes());
    assert(b.unused_volume_bytes() =~= a.unused_volume_bytes());
    assert(b.image_bytes() =~= a.image_bytes());
    assert(b.cache_bytes() =~= a.cache_bytes());
    assert(b.unused_cache_bytes() =~= a.unused_cache_bytes());
}

/// Whether two reports say the same of everything but the build cache.
pub open spec fn same_but_cache(a: DfReport, b: DfReport) -> bool {
    &&& a.layers_size == b.layers_size
    &&& a.images == b.images
    &&& a.volumes == b.volumes
    &&& a.containers == b.containers
}

/// A further record of the build cache adds its size to the total, and to what can be reclaimed
/// exactly where it is neither in use nor shared; what is not known of it counts as no.
pub proof fn law_cache_record_counts_by_its_use(
    a: DfReport,
    b: DfReport,
    listed: Vec<DfCache>,
    more: Vec<DfCache>,
    c: DfCache,
)
    requires
        same_but_cache(a, b),
        a.build_cache == Some(listed),
        b.build_cache == Some(more),
        more@ == listed@.push(c),
        a.adds_up(),
        b.adds_up(),
    ensures
        ({
            let (t, u) = (a.usage(), b.usage());
            let total = u.build_cache_total - t.build_cache_total;
            let free = u.build_cache_reclaimable - t.build_cache_reclaimable;
            &&& c.size is None ==> total == 0 && free == 0
            &&& c.size matches Some(n) ==> total == n
            &&& c.in_use == Some(true) ==> free == 0
            &&& c.shared == Some(true) ==> free == 0
            &&& c.in_use != Some(true) && c.shared != Some(true) ==> free == total
            &&& u.build_cache_count == t.build_cache_count + 1
            &&& u == (DiskUsage {
                build_cache_total: u.build_cache_total,
                build_cache_reclaimable: u.build_cache_reclaimable,
                build_cache_count: u.build_cache_count,
                ..t
            })
        }),
{
    lemma_sum_push(a.cache_bytes(), c.total());
    lemma_sum_push(a.unused_cache_bytes(), c.reclaimable());
    lemma_entries_len(b.build_cache);
    assert(b.cache_bytes() =~= a.cache_bytes().push(c.total()));
    assert(b.unused_cache_bytes() =~= a.unused_cache_bytes().push(c.reclaimable()));
    assert(b.volume_bytes() =~= a.volume_bytes());
    assert(b.unused_volume_bytes() =~= a.unused_volume_bytes());
    assert(b.image_bytes() =~= a.image_bytes());
    assert(b.container_bytes() =~= a.container_bytes());
    assert(b.stopped_bytes() =~= a.stopped_bytes());
}

} // verus!
