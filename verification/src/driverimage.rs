//! The driver image, the unit that the rest of the system works on, and its
//! assembly from an image record and the outcome of its snapshot lookup.

use crate::aws::{
    describe_snapshots, get_valid_snapshot_ids, lemma_no_descriptor_no_snapshot_id,
    lookup_records, valid_snapshot_ids, Error, ErrorModel, Image, ImageModel, QueryError,
    SnapshotRecord, SnapshotRecordModel,
};
use crate::text::{join, joined};
use vstd::prelude::*;
use vstd::string::StringExecFns;

verus! {

/// A snapshot that backs a driver image.
#[derive(Clone, Debug, PartialEq, Eq)]
pub struct Snapshot {
    pub snapshot_id: String,
    pub volume_id: String,
}

/// A driver image with the snapshots that were resolved for it.
#[derive(Clone, Debug, PartialEq, Eq)]
pub struct DriverImage {
    pub name: String,
    pub image_id: String,
    pub creation_date: String,
    pub snapshots: Vec<Snapshot>,
}

/// An image record together with the outcome of the lookup of its
/// snapshots.
#[derive(Debug, PartialEq, Eq)]
pub struct ResolvedImage {
    pub image: Image,
    pub lookup: Result<Vec<SnapshotRecord>, QueryError>,
}

/// The mathematical content of a [`ResolvedImage`]: the image, and the
/// records that its lookup gave.
pub struct ResolvedImageModel {
    pub image: ImageModel,
    pub records: Seq<SnapshotRecordModel>,
}

/// The mathematical content of a [`Snapshot`].
pub struct SnapshotModel {
    pub snapshot_id: Seq<char>,
    pub volume_id: Seq<char>,
}

/// The mathematical content of a [`DriverImage`].
pub struct DriverImageModel {
    pub name: Seq<char>,
    pub image_id: Seq<char>,
    pub creation_date: Seq<char>,
    pub snapshots: Seq<SnapshotModel>,
}

impl DeepView for Snapshot {
    type V = SnapshotModel;

    open spec fn deep_view(&self) -> SnapshotModel {
        SnapshotModel { snapshot_id: self.snapshot_id@, volume_id: self.volume_id@ }
    }
}

impl View for Snapshot {
    type V = SnapshotModel;

    open spec fn view(&self) -> SnapshotModel {
        self.deep_view()
    }
}

impl DeepView for DriverImage {
    type V = DriverImageModel;

    open spec fn deep_view(&self) -> DriverImageModel {
        DriverImageModel {
            name: self.name@,
            image_id: self.image_id@,
            creation_date: self.creation_date@,
            snapshots: self.snapshots.deep_view(),
        }
    }
}

impl View for DriverImage {
    type V = DriverImageModel;

    open spec fn view(&self) -> DriverImageModel {
        self.deep_view()
    }
}

impl DeepView for ResolvedImage {
    type V = ResolvedImageModel;

    open spec fn deep_view(&self) -> ResolvedImageModel {
        ResolvedImageModel { image: self.image@, records: lookup_records(self.lookup) }
    }
}

impl View for ResolvedImage {
    type V = ResolvedImageModel;

    open spec fn view(&self) -> ResolvedImageModel {
        self.deep_view()
    }
}

impl SnapshotModel {
    /// How a snapshot is displayed: its identifier, then its volume in
    /// brackets.
    pub open spec fn display(self) -> Seq<char> {
        self.snapshot_id + " (volume: "@ + self.volume_id + ")"@
    }
}

/// How each of the snapshots is displayed, in order.
pub open spec fn snapshot_displays(snapshots: Seq<SnapshotModel>) -> Seq<Seq<char>> {
    Seq::new(snapshots.len(), |i: int| snapshots[i].display())
}

/// The snapshot that a record describes: one with both its identifiers, and
/// none where the record lacks either.
pub open spec fn complete_snapshot(record: SnapshotRecordModel) -> Option<SnapshotModel> {
    match (record.snapshot_id, record.volume_id) {
        (Some(snapshot_id), Some(volume_id)) => Some(SnapshotModel { snapshot_id, volume_id }),
        _ => None,
    }
}

/// The snapshots of an image, given the records that its lookup gave: none
/// for an image without valid snapshot identifier, else the snapshots of the
/// complete records, in the records' order.
pub open spec fn resolved_snapshots(
    image: ImageModel,
    records: Seq<SnapshotRecordModel>,
) -> Seq<SnapshotModel> {
    if valid_snapshot_ids(image.block_device_mappings).len() == 0 {
        Seq::empty()
    } else {
        records.filter_map(|record: SnapshotRecordModel| complete_snapshot(record))
    }
}

/// The driver image of an image record and the records of its lookup.
pub open spec fn driver_image_of(
    image: ImageModel,
    records: Seq<SnapshotRecordModel>,
) -> DriverImageModel {
    DriverImageModel {
        name: image.name,
        image_id: image.image_id,
        creation_date: image.creation_date,
        snapshots: resolved_snapshots(image, records),
    }
}

/// The driver images of the resolved images, one for each and in their
/// order.
pub open spec fn driver_images_of(resolved: Seq<ResolvedImageModel>) -> Seq<DriverImageModel> {
    Seq::new(resolved.len(), |i: int| driver_image_of(resolved[i].image, resolved[i].records))
}

impl Snapshot {
    /// The snapshot as it is displayed.
    pub fn to_string(&self) -> (text: String)
        ensures
            text@ == self@.display(),
    {
        let mut text = self.snapshot_id.clone();
        text.append(" (volume: ");
        text.append(self.volume_id.as_str());
        text.append(")");
        text
    }
}

/// The snapshots as they are displayed in one table cell: each one's
/// display, with commas between them.
pub fn display_snapshots(val: &Vec<Snapshot>) -> (text: String)
    ensures
        text@ == joined(snapshot_displays(val.deep_view()), ","@),
{
    let mut displays: Vec<String> = Vec::new();
    let mut i: usize = 0;
    while i < val.len()
        invariant
            i <= val.len(),
            displays.len() == i,
            forall|j: int| 0 <= j < i ==> (#[trigger] displays[j])@ == val[j]@.display(),
        decreases val.len() - i,
    {
        displays.push(val[i].to_string());
        i += 1;
    }
    assert(displays.deep_view() =~= snapshot_displays(val.deep_view()));
    join(&displays, ",")
}

/// The snapshot that a record describes, if the record is complete.
pub fn complete(record: &SnapshotRecord) -> (snapshot: Option<Snapshot>)
    ensures
        snapshot.deep_view() == complete_snapshot(record@),
{
    match (&record.snapshot_id, &record.volume_id) {
        (Some(snapshot_id), Some(volume_id)) => Some(
            Snapshot { snapshot_id: snapshot_id.clone(), volume_id: volume_id.clone() },
        ),
        _ => None,
    }
}

/// The driver image of an image record and the outcome of the lookup of its
/// snapshots. A failed lookup gives a driver image without snapshots, and so
/// does an image without valid snapshot identifier; a record that lacks its
/// snapshot or volume identifier is left out.
pub fn build_driver_image(
    image: Image,
    lookup: Result<Vec<SnapshotRecord>, QueryError>,
) -> (driver_image: DriverImage)
    ensures
        driver_image@ == driver_image_of(image@, lookup_records(lookup)),
{
    let has_snapshot_ids = get_valid_snapshot_ids(&image).len() > 0;
    let ec2_snapshots = describe_snapshots(lookup);
    let ghost records = ec2_snapshots.deep_view();
    let ghost pick = |record: SnapshotRecordModel| complete_snapshot(record);
    let mut snapshots: Vec<Snapshot> = Vec::new();
    if has_snapshot_ids {
        let mut i: usize = 0;
        while i < ec2_snapshots.len()
            invariant
                i <= ec2_snapshots.len(),
                records == ec2_snapshots.deep_view(),
                pick == |record: SnapshotRecordModel| complete_snapshot(record),
                snapshots.deep_view() == records.take(i as int).filter_map(pick),
            decreases ec2_snapshots.len() - i,
        {
            proof {
                records.lemma_filter_map_take_succ(pick, i as int);
            }
            if let Some(snapshot) = complete(&ec2_snapshots[i]) {
                snapshots.push(snapshot);
            }
            i += 1;
        }
        assert(records.take(ec2_snapshots.len() as int) =~= records);
    } else {
        assert(snapshots.deep_view() =~= Seq::<SnapshotModel>::empty());
    }
    DriverImage {
        name: image.name,
        image_id: image.image_id,
        creation_date: image.creation_date,
        snapshots,
    }
}

/// The driver images of the resolved images: one for each, in their order.
pub fn build_driver_images(resolved: Vec<ResolvedImage>) -> (driver_images: Vec<DriverImage>)
    ensures
        driver_images.deep_view() == driver_images_of(resolved.deep_view()),
{
    let ghost all = resolved.deep_view();
    let mut driver_images: Vec<DriverImage> = Vec::new();
    for item in iter: resolved
        invariant
            all == resolved.deep_view(),
            iter.seq() == resolved@,
            driver_images.len() == iter.index(),
            forall|j: int|
                0 <= j < driver_images.len() ==> (#[trigger] driver_images[j])@ == driver_image_of(
                    all[j].image,
                    all[j].records,
                ),
    {
        driver_images.push(build_driver_image(item.image, item.lookup));
    }
    driver_images
}

/// The outcome of the aggregation for a selection: the driver images of the
/// images that the search returned, one for each and in the search's order,
/// or the failure of the search.
pub fn build_driver_images_by_lang_and_platform(
    search: Result<Vec<ResolvedImage>, QueryError>,
) -> (outcome: Result<Vec<DriverImage>, Error>)
    ensures
        match search {
            Ok(resolved) => outcome matches Ok(driver_images) && driver_images.deep_view()
                == driver_images_of(resolved.deep_view()),
            Err(e) => outcome matches Err(failure) && failure@ == (ErrorModel::QueryError {
                message: e.message@,
            }),
        },
{
    match search {
        Ok(resolved) => Ok(build_driver_images(resolved)),
        Err(e) => Err(Error::QueryError { message: e.message }),
    }
}

/// The outcome of the aggregation for one identifier: the driver image of
/// the image that was found, or why none was found.
pub fn build_driver_image_by_id(
    found: Result<ResolvedImage, Error>,
) -> (outcome: Result<DriverImage, Error>)
    ensures
        match found {
            Ok(resolved) => outcome matches Ok(driver_image) && driver_image@ == driver_image_of(
                resolved@.image,
                resolved@.records,
            ),
            Err(e) => outcome matches Err(failure) && failure@ == e@,
        },
{
    match found {
        Ok(resolved) => Ok(build_driver_image(resolved.image, resolved.lookup)),
        Err(e) => Err(e),
    }
}

/// The images with the outcomes of their lookups, pair by pair.
pub open spec fn resolved_images(
    images: Seq<ImageModel>,
    lookups: Seq<Result<Vec<SnapshotRecord>, QueryError>>,
) -> Seq<ResolvedImageModel> {
    Seq::new(
        images.len(),
        |i: int| ResolvedImageModel { image: images[i], records: lookup_records(lookups[i]) },
    )
}

/// The aggregation gives one driver image per image, in the images' order:
/// each stands where its image stood, and rearranging the images rearranges
/// the driver images in the same way.
pub proof fn lemma_aggregation_keeps_order(resolved: Seq<ResolvedImageModel>, order: Seq<int>)
    requires
        forall|k: int| 0 <= k < order.len() ==> 0 <= #[trigger] order[k] < resolved.len(),
    ensures
        driver_images_of(resolved).len() == resolved.len(),
        forall|i: int|
            0 <= i < resolved.len() ==> #[trigger] driver_images_of(resolved)[i] == driver_image_of(
                resolved[i].image,
                resolved[i].records,
            ),
        driver_images_of(Seq::new(order.len(), |k: int| resolved[order[k]])) == Seq::new(
            order.len(),
            |k: int| driver_images_of(resolved)[order[k]],
        ),
{
    assert(driver_images_of(Seq::new(order.len(), |k: int| resolved[order[k]])) =~= Seq::new(
        order.len(),
        |k: int| driver_images_of(resolved)[order[k]],
    ));
}

/// An image whose mappings all lack a backing-store descriptor gets a
/// driver image without snapshots, whatever its lookup gave.
pub proof fn lemma_no_descriptor_no_snapshots(image: ImageModel, records: Seq<SnapshotRecordModel>)
    requires
        forall|i: int|
            0 <= i < image.block_device_mappings.len()
                ==> #[trigger] image.block_device_mappings[i] is None,
    ensures
        driver_image_of(image, records).snapshots == Seq::<SnapshotModel>::empty(),
{
    lemma_no_descriptor_no_snapshot_id(image.block_device_mappings);
}

/// A failed lookup costs its own image the snapshots and changes nothing
/// else: there is still one driver image per image, that of the failed
/// lookup has no snapshots, and every other is what it was.
pub proof fn lemma_failed_lookup_is_isolated(
    images: Seq<ImageModel>,
    lookups: Seq<Result<Vec<SnapshotRecord>, QueryError>>,
    k: int,
    failure: QueryError,
)
    requires
        images.len() == lookups.len(),
        0 <= k < images.len(),
    ensures
        ({
            let before = driver_images_of(resolved_images(images, lookups));
            let after = driver_images_of(
                resolved_images(
                    images,
                    lookups.update(k, Err::<Vec<SnapshotRecord>, QueryError>(failure)),
                ),
            );
            &&& after.len() == images.len()
            &&& after[k].snapshots == Seq::<SnapshotModel>::empty()
            &&& forall|j: int| 0 <= j < images.len() && j != k ==> after[j] == before[j]
        }),
{
}

/// No snapshot of a driver image is made up: each is that of a record of the
/// image's lookup that has both its identifiers.
pub proof fn lemma_snapshots_come_from_records(
    image: ImageModel,
    records: Seq<SnapshotRecordModel>,
    snapshot: SnapshotModel,
)
    requires
        driver_image_of(image, records).snapshots.contains(snapshot),
    ensures
        records.contains(
            SnapshotRecordModel {
                snapshot_id: Some(snapshot.snapshot_id),
                volume_id: Some(snapshot.volume_id),
            },
        ),
{
    let pick = |record: SnapshotRecordModel| complete_snapshot(record);
    records.lemma_filter_map_contains(pick, snapshot);
    let record = choose|record: SnapshotRecordModel| #[trigger]
        records.contains(record) && pick(record) == Some(snapshot);
    assert(record == SnapshotRecordModel {
        snapshot_id: Some(snapshot.snapshot_id),
        volume_id: Some(snapshot.volume_id),
    });
}

} // verus!
