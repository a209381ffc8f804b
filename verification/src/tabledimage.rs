//! The image as a row of the printed table, made from an image record.

use crate::aws::{
    descriptors_have_snapshot_ids, ebs_snapshot_ids, get_ebs_snapshot_ids, Image, ImageModel,
};
use crate::text::{join, joined};
use vstd::prelude::*;

verus! {

/// An image as a table row: its name, identifiers and creation date, and the
/// snapshot identifiers of its mappings.
#[derive(Clone, Debug, PartialEq, Eq)]
pub struct TabledImage {
    pub name: String,
    pub image_id: String,
    pub creation_date: String,
    pub snapshot_ids: Vec<String>,
}

/// The mathematical content of a [`TabledImage`].
pub struct TabledImageModel {
    pub name: Seq<char>,
    pub image_id: Seq<char>,
    pub creation_date: Seq<char>,
    pub snapshot_ids: Seq<Seq<char>>,
}

impl DeepView for TabledImage {
    type V = TabledImageModel;

    open spec fn deep_view(&self) -> TabledImageModel {
        TabledImageModel {
            name: self.name@,
            image_id: self.image_id@,
            creation_date: self.creation_date@,
            snapshot_ids: self.snapshot_ids.deep_view(),
        }
    }
}

impl View for TabledImage {
    type V = TabledImageModel;

    open spec fn view(&self) -> TabledImageModel {
        self.deep_view()
    }
}

/// What is shown of an image record: its name, identifier and creation
/// date, and the snapshot identifiers of its mappings that have a
/// backing-store descriptor.
pub open spec fn tabled_image_of(image: ImageModel) -> TabledImageModel {
    TabledImageModel {
        name: image.name,
        image_id: image.image_id,
        creation_date: image.creation_date,
        snapshot_ids: ebs_snapshot_ids(image.block_device_mappings),
    }
}

/// The snapshot identifiers as they are displayed in one table cell: with
/// commas between them.
pub fn display_snapshot_ids(val: &Vec<String>) -> (text: String)
    ensures
        text@ == joined(val.deep_view(), ","@),
{
    join(val, ",")
}

/// What is shown of an image record. Every backing-store descriptor of the
/// image has to have a snapshot identifier.
pub fn from_image(image: &Image) -> (data: TabledImage)
    requires
        descriptors_have_snapshot_ids(image@.block_device_mappings),
    ensures
        data@ == tabled_image_of(image@),
{
    TabledImage {
        name: image.name.clone(),
        image_id: image.image_id.clone(),
        creation_date: image.creation_date.clone(),
        snapshot_ids: get_ebs_snapshot_ids(image),
    }
}

/// What is shown of each of the image records, in their order. Every
/// backing-store descriptor of every image has to have a snapshot identifier.
pub fn from_image_vector(images: Vec<Image>) -> (data: Vec<TabledImage>)
    requires
        forall|i: int|
            0 <= i < images.len() ==> descriptors_have_snapshot_ids(
                (#[trigger] images[i])@.block_device_mappings,
            ),
    ensures
        data.len() == images.len(),
        forall|i: int|
            0 <= i < images.len() ==> (#[trigger] data[i])@ == tabled_image_of(images[i]@),
{
    let mut data: Vec<TabledImage> = Vec::new();
    let mut i: usize = 0;
    while i < images.len()
        invariant
            i <= images.len(),
            data.len() == i,
            forall|j: int|
                0 <= j < images.len() ==> descriptors_have_snapshot_ids(
                    (#[trigger] images[j])@.block_device_mappings,
                ),
            forall|j: int| 0 <= j < i ==> (#[trigger] data[j])@ == tabled_image_of(images[j]@),
        decreases images.len() - i,
    {
        data.push(from_image(&images[i]));
        i += 1;
    }
    data
}

} // verus!
