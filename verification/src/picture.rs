//! Pictures: those the engine hands out, and the envelope in which a client
//! uploads one through the side channel.

use vstd::prelude::*;

verus! {

/// A picture, or its thumbnail, as the client receives it.
#[derive(Debug, PartialEq)]
pub struct JuhuiPicture {
    pub data: Vec<u8>,
    pub is_thumbnail: bool,
    pub id: u64,
}

pub struct JuhuiPictureView {
    pub data: Seq<u8>,
    pub is_thumbnail: bool,
    pub id: u64,
}

impl View for JuhuiPicture {
    type V = JuhuiPictureView;

    open spec fn view(&self) -> JuhuiPictureView {
        JuhuiPictureView { data: self.data@, is_thumbnail: self.is_thumbnail, id: self.id }
    }
}

impl Clone for JuhuiPicture {
    fn clone(&self) -> (copy: JuhuiPicture)
        ensures
            copy@ == self@,
    {
        JuhuiPicture { data: self.data.clone(), is_thumbnail: self.is_thumbnail, id: self.id }
    }
}

/// What an uploaded picture is a picture of.
#[derive(Clone, Copy, Debug, PartialEq, Eq)]
pub enum PictureKind {
    TeamProfile { session: u64, team: usize },
    PlayerProfile(u64),
    Period { session: u64, team: usize, period_id: usize },
}

/// The envelope of one upload: what the picture shows, and its raw bytes.
#[derive(Debug, PartialEq)]
pub struct PictureWrapper {
    pub kind: PictureKind,
    pub picture: Vec<u8>,
}

pub struct PictureWrapperView {
    pub kind: PictureKind,
    pub picture: Seq<u8>,
}

impl View for PictureWrapper {
    type V = PictureWrapperView;

    open spec fn view(&self) -> PictureWrapperView {
        PictureWrapperView { kind: self.kind, picture: self.picture@ }
    }
}

impl Clone for PictureWrapper {
    fn clone(&self) -> (copy: PictureWrapper)
        ensures
            copy@ == self@,
    {
        PictureWrapper { kind: self.kind, picture: self.picture.clone() }
    }
}

} // verus!
