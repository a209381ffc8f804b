//! The image catalog as the library sees it: the records that a search and a
//! snapshot lookup return, held as plain values, and the naming convention
//! that turns a language and a platform into a search filter.

use crate::text::{is_lowercase, lowercase, to_ascii_lowercase};
use crate::{ImageLang, ImagePlatform};
use vstd::prelude::*;
use vstd::string::StringExecFns;

verus! {

/// The backing-store descriptor of a block-device mapping.
#[derive(Clone, Debug, PartialEq, Eq)]
pub struct EbsBlockDevice {
    pub snapshot_id: Option<String>,
}

/// One block-device mapping of an image.
#[derive(Clone, Debug, PartialEq, Eq)]
pub struct BlockDeviceMapping {
    pub ebs: Option<EbsBlockDevice>,
}

/// An image record as the catalog returns it.
#[derive(Clone, Debug, PartialEq, Eq)]
pub struct Image {
    pub image_id: String,
    pub name: String,
    pub creation_date: String,
    pub block_device_mappings: Vec<BlockDeviceMapping>,
}

/// A snapshot record as the catalog returns it; either field may be missing.
#[derive(Clone, Debug, PartialEq, Eq)]
pub struct SnapshotRecord {
    pub snapshot_id: Option<String>,
    pub volume_id: Option<String>,
}

/// A failed call to the catalog, with the catalog's own words.
#[derive(Clone, Debug, PartialEq, Eq)]
pub struct QueryError {
    pub message: String,
}

/// Why an operation on the catalog gave no result.
#[derive(Clone, Debug, PartialEq, Eq)]
pub enum Error {
    /// A call to the catalog failed.
    QueryError { message: String },
    /// The search succeeded and found no image with the identifier.
    NotFound { image_id: String },
}

/// A filter of an image search: the name of the attribute and the values
/// that it may have.
#[derive(Clone, Debug, PartialEq, Eq)]
pub struct Filter {
    pub name: String,
    pub values: Vec<String>,
}

/// What a block-device mapping is to the aggregation: no descriptor (`None`),
/// a descriptor without snapshot identifier (`Some(None)`), or a descriptor
/// with one.
pub type MappingModel = Option<Option<Seq<char>>>;

/// The mathematical content of an [`Image`].
pub struct ImageModel {
    pub image_id: Seq<char>,
    pub name: Seq<char>,
    pub creation_date: Seq<char>,
    pub block_device_mappings: Seq<MappingModel>,
}

/// The mathematical content of a [`SnapshotRecord`].
pub struct SnapshotRecordModel {
    pub snapshot_id: Option<Seq<char>>,
    pub volume_id: Option<Seq<char>>,
}

/// The mathematical content of an [`Error`].
pub enum ErrorModel {
    QueryError { message: Seq<char> },
    NotFound { image_id: Seq<char> },
}

/// The mathematical content of a [`Filter`].
pub struct FilterModel {
    pub name: Seq<char>,
    pub values: Seq<Seq<char>>,
}

impl DeepView for EbsBlockDevice {
    type V = Option<Seq<char>>;

    open spec fn deep_view(&self) -> Option<Seq<char>> {
        self.snapshot_id.deep_view()
    }
}

impl DeepView for BlockDeviceMapping {
    type V = MappingModel;

    open spec fn deep_view(&self) -> MappingModel {
        self.ebs.deep_view()
    }
}

impl DeepView for Image {
    type V = ImageModel;

    open spec fn deep_view(&self) -> ImageModel {
        ImageModel {
            image_id: self.image_id@,
            name: self.name@,
            creation_date: self.creation_date@,
            block_device_mappings: self.block_device_mappings.deep_view(),
        }
    }
}

impl View for Image {
    type V = ImageModel;

    open spec fn view(&self) -> ImageModel {
        self.deep_view()
    }
}

impl DeepView for SnapshotRecord {
    type V = SnapshotRecordModel;

    open spec fn deep_view(&self) -> SnapshotRecordModel {
        SnapshotRecordModel {
            snapshot_id: self.snapshot_id.deep_view(),
            volume_id: self.volume_id.deep_view(),
        }
    }
}

impl View for SnapshotRecord {
    type V = SnapshotRecordModel;

    open spec fn view(&self) -> SnapshotRecordModel {
        self.deep_view()
    }
}

impl DeepView for Error {
    type V = ErrorModel;

    open spec fn deep_view(&self) -> ErrorModel {
        match self {
            Error::QueryError { message } => ErrorModel::QueryError { message: message@ },
            Error::NotFound { image_id } => ErrorModel::NotFound { image_id: image_id@ },
        }
    }
}

impl View for Error {
    type V = ErrorModel;

    open spec fn view(&self) -> ErrorModel {
        self.deep_view()
    }
}

impl ErrorModel {
    /// The failure in words.
    pub open spec fn message(self) -> Seq<char> {
        match self {
            ErrorModel::QueryError { message } => message,
            ErrorModel::NotFound { image_id } => "No image found for ID "@ + image_id,
        }
    }
}

impl Error {
    /// The failure in words.
    pub fn to_string(&self) -> (text: String)
        ensures
            text@ == self@.message(),
    {
        match self {
            Error::QueryError { message } => message.clone(),
            Error::NotFound { image_id } => {
                let mut text = "No image found for ID ".to_owned();
                text.append(image_id.as_str());
                text
            },
        }
    }
}

impl DeepView for Filter {
    type V = FilterModel;

    open spec fn deep_view(&self) -> FilterModel {
        FilterModel { name: self.name@, values: self.values.deep_view() }
    }
}

impl View for Filter {
    type V = FilterModel;

    open spec fn view(&self) -> FilterModel {
        self.deep_view()
    }
}

/// The language that a selection stands for: the selected one, and Java
/// where none is selected.
pub open spec fn resolve_language_default(lang: Option<ImageLang>) -> ImageLang {
    match lang {
        Some(l) => l,
        None => ImageLang::Java,
    }
}

/// The displayed name of the language that a selection stands for.
pub open spec fn lang_string(lang: Option<ImageLang>) -> Seq<char> {
    resolve_language_default(lang).display_name()
}

/// The displayed name of the selected platform, and the wildcard `*` where
/// none is selected.
pub open spec fn platform_string(platform: Option<ImagePlatform>) -> Seq<char> {
    match platform {
        Some(p) => p.display_name(),
        None => "*"@,
    }
}

/// The pattern that the names of the selected driver images match:
/// `<language>-driver-<platform>-64-*` with a platform, `<language>-driver-*`
/// without one, in lower case.
pub open spec fn filter_string(
    lang: Option<ImageLang>,
    platform: Option<ImagePlatform>,
) -> Seq<char> {
    match platform {
        Some(p) => lowercase(lang_string(lang)) + "-driver-"@ + lowercase(p.display_name())
            + "-64-*"@,
        None => lowercase(lang_string(lang)) + "-driver-*"@,
    }
}

/// The displayed name of the selected language, Java where none is selected.
pub fn to_lang_string(lang: &Option<ImageLang>) -> (name: String)
    ensures
        name@ == lang_string(*lang),
{
    match lang {
        Some(l) => l.to_string(),
        None => ImageLang::Java.to_string(),
    }
}

/// The displayed name of the selected platform, `*` where none is selected.
pub fn to_platform_string(platform: &Option<ImagePlatform>) -> (name: String)
    ensures
        name@ == platform_string(*platform),
{
    match platform {
        None => "*".to_owned(),
        Some(p) => p.to_string(),
    }
}

/// What the fixed parts of the pattern are made of.
proof fn lemma_pattern_parts()
    ensures
        lowercase("-driver-"@) == "-driver-"@,
        lowercase("-64-*"@) == "-64-*"@,
        lowercase("*"@) == "*"@,
        "-driver-"@ + "*"@ == "-driver-*"@,
{
    reveal_strlit("-driver-");
    reveal_strlit("-64-*");
    reveal_strlit("*");
    reveal_strlit("-driver-*");
}

/// The pattern that the names of the selected driver images match.
pub fn build_filter_string(
    lang: &Option<ImageLang>,
    platform: &Option<ImagePlatform>,
) -> (pattern: String)
    ensures
        pattern@ == filter_string(*lang, *platform),
{
    let mut joined = to_lang_string(lang);
    joined.append("-driver-");
    joined.append(to_platform_string(platform).as_str());
    let base = to_ascii_lowercase(joined.as_str());
    proof {
        lemma_pattern_parts();
    }
    match platform {
        None => base,
        Some(_) => {
            let mut qualified = base;
            qualified.append("-64-*");
            to_ascii_lowercase(qualified.as_str())
        },
    }
}

/// A selection without language selects what the same selection with Java
/// selects.
pub proof fn lemma_absent_language_is_java(platform: Option<ImagePlatform>)
    ensures
        filter_string(None, platform) == filter_string(Some(ImageLang::Java), platform),
{
}

/// Without a platform the pattern is the language's name, `-driver-` and
/// the wildcard, and nothing else.
pub proof fn lemma_pattern_without_platform(lang: ImageLang)
    ensures
        filter_string(Some(lang), None) == lang.pattern_name() + "-driver-*"@,
{
    lang.lemma_pattern_name();
}

/// With a platform the pattern is the language's name, `-driver-`, the
/// platform's name and `-64-*`.
pub proof fn lemma_pattern_with_platform(lang: ImageLang, platform: ImagePlatform)
    ensures
        filter_string(Some(lang), Some(platform)) == lang.pattern_name() + "-driver-"@
            + platform.pattern_name() + "-64-*"@,
{
    lang.lemma_pattern_name();
    platform.lemma_pattern_name();
}

/// No pattern holds an upper-case letter.
pub proof fn lemma_pattern_is_lowercase(lang: Option<ImageLang>, platform: Option<ImagePlatform>)
    ensures
        is_lowercase(filter_string(lang, platform)),
{
    reveal_strlit("-driver-");
    reveal_strlit("-64-*");
    reveal_strlit("-driver-*");
    resolve_language_default(lang).lemma_pattern_name();
    if let Some(p) = platform {
        p.lemma_pattern_name();
    }
}

/// The search for the selected driver images, as the filter that the
/// catalog is asked with: its attribute is the image's name, its one value
/// the selection's pattern.
pub fn describe_images_by_lang_and_platform(
    lang: &Option<ImageLang>,
    platform: &Option<ImagePlatform>,
) -> (filter: Filter)
    ensures
        filter@ == (FilterModel { name: "name"@, values: seq![filter_string(*lang, *platform)] }),
{
    let mut values: Vec<String> = Vec::new();
    values.push(build_filter_string(lang, platform));
    let filter = Filter { name: "name".to_owned(), values };
    assert(filter@.values =~= seq![filter_string(*lang, *platform)]);
    filter
}

/// The filter of the search for the image with the given identifier.
pub fn image_id_filter(image_id: &str) -> (filter: Filter)
    ensures
        filter@ == (FilterModel { name: "image-id"@, values: seq![image_id@] }),
{
    let mut values: Vec<String> = Vec::new();
    values.push(image_id.to_owned());
    let filter = Filter { name: "image-id".to_owned(), values };
    assert(filter@.values =~= seq![image_id@]);
    filter
}

/// What a search by identifier found: the first image of a successful
/// search, `NotFound` where it returned none, and the failure of a search
/// that failed.
pub open spec fn image_by_id(
    image_id: Seq<char>,
    search: Result<Vec<Image>, QueryError>,
) -> Result<ImageModel, ErrorModel> {
    match search {
        Ok(images) => if images.len() > 0 {
            Ok(images[0]@)
        } else {
            Err(ErrorModel::NotFound { image_id })
        },
        Err(e) => Err(ErrorModel::QueryError { message: e.message@ }),
    }
}

/// The image that a search by identifier found, or why there is none.
pub fn describe_image_by_id(
    image_id: &str,
    search: Result<Vec<Image>, QueryError>,
) -> (found: Result<Image, Error>)
    ensures
        match found {
            Ok(image) => image_by_id(image_id@, search) == Ok::<ImageModel, ErrorModel>(image@),
            Err(e) => image_by_id(image_id@, search) == Err::<ImageModel, ErrorModel>(e@),
        },
{
    match search {
        Ok(images) => {
            if images.len() > 0 {
                let mut images = images;
                Ok(images.swap_remove(0))
            } else {
                Err(Error::NotFound { image_id: image_id.to_owned() })
            }
        },
        Err(e) => Err(Error::QueryError { message: e.message }),
    }
}

/// A search by identifier that succeeds without a match ends in `NotFound`;
/// no successful search ends in a query error.
pub proof fn lemma_no_match_is_not_found(
    image_id: Seq<char>,
    search: Result<Vec<Image>, QueryError>,
)
    requires
        search is Ok,
    ensures
        !(image_by_id(image_id, search) matches Err(ErrorModel::QueryError { .. })),
        search->Ok_0.len() == 0 ==> image_by_id(image_id, search) == Err::<ImageModel, ErrorModel>(
            ErrorModel::NotFound { image_id },
        ),
{
}

/// What a block-device mapping says of its snapshot.
#[derive(Clone, Copy, Debug, PartialEq, Eq)]
pub enum MappingStatus {
    /// The mapping has a backing-store descriptor with a snapshot identifier.
    Valid,
    /// The mapping has no backing-store descriptor.
    MissingEbs,
    /// The mapping's backing-store descriptor has no snapshot identifier, or
    /// an empty one.
    MissingSnapshotId,
}

/// The status of a mapping.
pub open spec fn mapping_status_of(mapping: MappingModel) -> MappingStatus {
    match mapping {
        None => MappingStatus::MissingEbs,
        Some(None) => MappingStatus::MissingSnapshotId,
        Some(Some(id)) => if id.len() > 0 {
            MappingStatus::Valid
        } else {
            MappingStatus::MissingSnapshotId
        },
    }
}

/// The snapshot identifier of a valid mapping, and `None` for any other.
pub open spec fn valid_snapshot_id(mapping: MappingModel) -> Option<Seq<char>> {
    match mapping {
        Some(Some(id)) if id.len() > 0 => Some(id),
        _ => None,
    }
}

/// The snapshot identifiers of the valid mappings, in the mappings' order.
pub open spec fn valid_snapshot_ids(mappings: Seq<MappingModel>) -> Seq<Seq<char>> {
    mappings.filter_map(|mapping: MappingModel| valid_snapshot_id(mapping))
}

/// The records that a snapshot lookup gave: those it returned, and none
/// where it failed.
pub open spec fn lookup_records(
    lookup: Result<Vec<SnapshotRecord>, QueryError>,
) -> Seq<SnapshotRecordModel> {
    match lookup {
        Ok(records) => records.deep_view(),
        Err(_) => Seq::empty(),
    }
}

/// The status of a mapping.
pub fn mapping_status(mapping: &BlockDeviceMapping) -> (status: MappingStatus)
    ensures
        status == mapping_status_of(mapping.deep_view()),
        status == MappingStatus::Valid <==> valid_snapshot_id(mapping.deep_view()) is Some,
{
    match &mapping.ebs {
        None => MappingStatus::MissingEbs,
        Some(ebs) => match &ebs.snapshot_id {
            None => MappingStatus::MissingSnapshotId,
            Some(id) => if id.as_str().is_empty() {
                MappingStatus::MissingSnapshotId
            } else {
                MappingStatus::Valid
            },
        },
    }
}

/// The snapshot identifiers of the image's valid mappings, in the mappings'
/// order: a mapping without backing-store descriptor, or whose descriptor
/// has no snapshot identifier or an empty one, is left out.
pub fn get_valid_snapshot_ids(image: &Image) -> (ids: Vec<String>)
    ensures
        ids.deep_view() == valid_snapshot_ids(image@.block_device_mappings),
{
    let ghost mappings = image.block_device_mappings.deep_view();
    let ghost pick = |mapping: MappingModel| valid_snapshot_id(mapping);
    let mut ids: Vec<String> = Vec::new();
    let mut i: usize = 0;
    while i < image.block_device_mappings.len()
        invariant
            i <= image.block_device_mappings.len(),
            mappings == image.block_device_mappings.deep_view(),
            pick == |mapping: MappingModel| valid_snapshot_id(mapping),
            ids.deep_view() == mappings.take(i as int).filter_map(pick),
        decreases image.block_device_mappings.len() - i,
    {
        let mapping = &image.block_device_mappings[i];
        proof {
            mappings.lemma_filter_map_take_succ(pick, i as int);
        }
        match mapping_status(mapping) {
            MappingStatus::Valid => {
                let id = mapping.ebs.as_ref().unwrap().snapshot_id.as_ref().unwrap();
                ids.push(id.clone());
            },
            MappingStatus::MissingEbs => {},
            MappingStatus::MissingSnapshotId => {},
        }
        i += 1;
    }
    assert(mappings.take(image.block_device_mappings.len() as int) =~= mappings);
    ids
}

/// The records of a snapshot lookup: those that it returned, and none where
/// the lookup failed.
pub fn describe_snapshots(
    lookup: Result<Vec<SnapshotRecord>, QueryError>,
) -> (records: Vec<SnapshotRecord>)
    ensures
        records.deep_view() == lookup_records(lookup),
{
    match lookup {
        Ok(records) => records,
        Err(_) => {
            let records: Vec<SnapshotRecord> = Vec::new();
            records
        },
    }
}

/// The outcome of a deregistration: the catalog's answer, or its failure
/// with a word on what was being done.
pub fn deregister_image(response: Result<bool, QueryError>) -> (outcome: Result<bool, Error>)
    ensures
        match response {
            Ok(flag) => outcome == Ok::<bool, Error>(flag),
            Err(e) => outcome matches Err(failure) && failure@ == (ErrorModel::QueryError {
                message: "Error deregistering image: "@ + e.message@,
            }),
        },
{
    match response {
        Ok(flag) => Ok(flag),
        Err(e) => {
            let mut message = "Error deregistering image: ".to_owned();
            message.append(e.message.as_str());
            Err(Error::QueryError { message })
        },
    }
}

/// Whether every backing-store descriptor among the mappings has a snapshot
/// identifier.
pub open spec fn descriptors_have_snapshot_ids(mappings: Seq<MappingModel>) -> bool {
    forall|i: int| 0 <= i < mappings.len() ==> #[trigger] mappings[i] != Some(None::<Seq<char>>)
}

/// The snapshot identifier of a mapping's backing-store descriptor.
pub open spec fn ebs_snapshot_id(mapping: MappingModel) -> Option<Seq<char>> {
    match mapping {
        Some(Some(id)) => Some(id),
        _ => None,
    }
}

/// The snapshot identifiers of the mappings that have a backing-store
/// descriptor, in the mappings' order.
pub open spec fn ebs_snapshot_ids(mappings: Seq<MappingModel>) -> Seq<Seq<char>> {
    mappings.filter_map(|mapping: MappingModel| ebs_snapshot_id(mapping))
}

/// Whether every backing-store descriptor of the image has a snapshot
/// identifier.
pub fn has_snapshot_ids(image: &Image) -> (complete: bool)
    ensures
        complete == descriptors_have_snapshot_ids(image@.block_device_mappings),
{
    let mut i: usize = 0;
    while i < image.block_device_mappings.len()
        invariant
            i <= image.block_device_mappings.len(),
            descriptors_have_snapshot_ids(image@.block_device_mappings.take(i as int)),
        decreases image.block_device_mappings.len() - i,
    {
        let ghost mappings = image@.block_device_mappings;
        match &image.block_device_mappings[i].ebs {
            Some(ebs) => {
                if ebs.snapshot_id.is_none() {
                    assert(mappings[i as int] == Some(None::<Seq<char>>));
                    return false;
                }
            },
            None => {},
        }
        i += 1;
    }
    assert(image@.block_device_mappings.take(i as int) =~= image@.block_device_mappings);
    true
}

/// The snapshot identifiers of the image's mappings that have a
/// backing-store descriptor, in the mappings' order. Every such descriptor
/// has to have a snapshot identifier.
pub fn get_ebs_snapshot_ids(image: &Image) -> (ids: Vec<String>)
    requires
        descriptors_have_snapshot_ids(image@.block_device_mappings),
    ensures
        ids.deep_view() == ebs_snapshot_ids(image@.block_device_mappings),
{
    let ghost mappings = image.block_device_mappings.deep_view();
    let ghost pick = |mapping: MappingModel| ebs_snapshot_id(mapping);
    let mut ids: Vec<String> = Vec::new();
    let mut i: usize = 0;
    while i < image.block_device_mappings.len()
        invariant
            i <= image.block_device_mappings.len(),
            mappings == image.block_device_mappings.deep_view(),
            descriptors_have_snapshot_ids(mappings),
            pick == |mapping: MappingModel| ebs_snapshot_id(mapping),
            ids.deep_view() == mappings.take(i as int).filter_map(pick),
        decreases image.block_device_mappings.len() - i,
    {
        let mapping = &image.block_device_mappings[i];
        proof {
            mappings.lemma_filter_map_take_succ(pick, i as int);
        }
        match &mapping.ebs {
            None => {},
            Some(ebs) => {
                let id = ebs.snapshot_id.as_ref().expect("snapshot_id was null");
                ids.push(id.clone());
            },
        }
        i += 1;
    }
    assert(mappings.take(image.block_device_mappings.len() as int) =~= mappings);
    ids
}

/// Mappings without any backing-store descriptor give no valid snapshot
/// identifier.
pub proof fn lemma_no_descriptor_no_snapshot_id(mappings: Seq<MappingModel>)
    requires
        forall|i: int| 0 <= i < mappings.len() ==> #[trigger] mappings[i] is None,
    ensures
        valid_snapshot_ids(mappings) == Seq::<Seq<char>>::empty(),
    decreases mappings.len(),
{
    if mappings.len() > 0 {
        lemma_no_descriptor_no_snapshot_id(mappings.drop_last());
    }
}

/// Every valid snapshot identifier is a snapshot identifier of one of the
/// mappings' descriptors, and is not empty.
pub proof fn lemma_valid_snapshot_ids_come_from_mappings(mappings: Seq<MappingModel>, id: Seq<char>)
    requires
        valid_snapshot_ids(mappings).contains(id),
    ensures
        id.len() > 0,
        mappings.contains(Some(Some(id))),
{
    let pick = |mapping: MappingModel| valid_snapshot_id(mapping);
    mappings.lemma_filter_map_contains(pick, id);
}

} // verus!
