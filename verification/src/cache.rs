//! The record of the level before the last mute.
//!
//! The record is one file of four bytes, the level as a little-endian
//! unsigned integer, with no header. A [`VolumeCache`] holds what that file
//! holds; reading and writing the file itself is the caller's part.

use vstd::prelude::*;
use vstd::string::*;
use crate::volume::{Volume, DEFAULT_VOLUME};

verus! {

/// The four bytes that stand for a level, lowest byte first.
pub open spec fn le_bytes(volume: Volume) -> Seq<u8> {
    seq![
        (volume % 256) as u8,
        ((volume / 256) % 256) as u8,
        ((volume / 65536) % 256) as u8,
        (volume / 16777216) as u8,
    ]
}

/// The level that four bytes stand for, lowest byte first.
pub open spec fn le_value(bytes: Seq<u8>) -> Volume {
    (bytes[0] + 256 * bytes[1] + 65536 * bytes[2] + 16777216 * bytes[3]) as u32
}

/// The level on record in a file with the given contents. `None` is a file
/// that is absent or cannot be read. Anything but exactly four bytes is no
/// record, and the default level stands in.
pub open spec fn recorded(contents: Option<Seq<u8>>) -> Volume {
    match contents {
        Some(bytes) => if bytes.len() == 4 {
            le_value(bytes)
        } else {
            DEFAULT_VOLUME
        },
        None => DEFAULT_VOLUME,
    }
}

/// Why no place for the record could be named.
#[derive(Clone, Copy, Debug, PartialEq, Eq, Structural)]
pub enum PathError {
    /// No cache directory, no home directory and no fallback is known.
    HomeNotSet,
}

/// The single slot that remembers a level across runs.
#[derive(Clone, Debug, PartialEq, Eq)]
pub struct VolumeCache {
    /// What the file holds; `None` while there is no readable file.
    pub contents: Option<Vec<u8>>,
}

/// The cache, as the unmute sees it.
pub type PreviousVolume = VolumeCache;

impl View for VolumeCache {
    type V = Option<Seq<u8>>;

    open spec fn view(&self) -> Option<Seq<u8>> {
        match self.contents {
            Some(bytes) => Some(bytes@),
            None => None,
        }
    }
}

impl VolumeCache {
    /// The cache of a fresh environment: no file yet.
    pub fn absent() -> (cache: VolumeCache)
        ensures
            cache@ is None,
    {
        VolumeCache { contents: None }
    }

    /// The directory of the record: `volfade-rs` under the cache directory
    /// where one is given, else under `.cache` in the home directory, else
    /// under the fallback directory. With none of the three there is no
    /// place for it.
    pub open spec fn spec_dir(
        xdg_cache_home: Option<Seq<char>>,
        home: Option<Seq<char>>,
        fallback_dir: Option<Seq<char>>,
    ) -> Result<Seq<char>, PathError> {
        match (xdg_cache_home, home, fallback_dir) {
            (Some(dir), _, _) => Ok(dir + "/volfade-rs"@),
            (None, Some(dir), _) => Ok(dir + "/.cache/volfade-rs"@),
            (None, None, Some(dir)) => Ok(dir + "/volfade-rs"@),
            (None, None, None) => Err(PathError::HomeNotSet),
        }
    }

    /// The file of the record: `previous_volume` in the directory of the record.
    pub open spec fn spec_path(
        xdg_cache_home: Option<Seq<char>>,
        home: Option<Seq<char>>,
        fallback_dir: Option<Seq<char>>,
    ) -> Result<Seq<char>, PathError> {
        match Self::spec_dir(xdg_cache_home, home, fallback_dir) {
            Ok(dir) => Ok(dir + "/previous_volume"@),
            Err(e) => Err(e),
        }
    }

    /// Names the directory that holds the record, which the caller creates
    /// if it is not there.
    ///
    /// The arguments are the values of `XDG_CACHE_HOME` and `HOME`, `None`
    /// for one that is not set, and a directory for temporary files to fall
    /// back on, if the caller has one to offer.
    pub fn get_dir(
        xdg_cache_home: Option<&str>,
        home: Option<&str>,
        fallback_dir: Option<&str>,
    ) -> (dir: Result<String, PathError>)
        ensures
            named(dir) == Self::spec_dir(
                view_of(xdg_cache_home),
                view_of(home),
                view_of(fallback_dir),
            ),
    {
        let (base, below) = match (xdg_cache_home, home, fallback_dir) {
            (Some(base), _, _) => (base, "/volfade-rs"),
            (None, Some(base), _) => (base, "/.cache/volfade-rs"),
            (None, None, Some(base)) => (base, "/volfade-rs"),
            (None, None, None) => {
                return Err(PathError::HomeNotSet);
            },
        };
        let mut dir = String::from_str(base);
        dir.append(below);
        Ok(dir)
    }

    /// Names the file that holds the record. The arguments are those of
    /// `get_dir`.
    pub fn get_path(
        xdg_cache_home: Option<&str>,
        home: Option<&str>,
        fallback_dir: Option<&str>,
    ) -> (path: Result<String, PathError>)
        ensures
            named(path) == Self::spec_path(
                view_of(xdg_cache_home),
                view_of(home),
                view_of(fallback_dir),
            ),
    {
        match Self::get_dir(xdg_cache_home, home, fallback_dir) {
            Ok(dir) => {
                let mut path = dir;
                path.append("/previous_volume");
                Ok(path)
            },
            Err(e) => Err(e),
        }
    }

    /// The bytes that record a level.
    pub fn encode(volume: Volume) -> (bytes: Vec<u8>)
        ensures
            bytes@ == le_bytes(volume),
    {
        let mut bytes: Vec<u8> = Vec::new();
        bytes.push((volume % 256) as u8);
        bytes.push(((volume / 256) % 256) as u8);
        bytes.push(((volume / 65536) % 256) as u8);
        bytes.push((volume / 16777216) as u8);
        bytes
    }

    /// Overwrites the record with a level.
    pub fn save(&mut self, volume: Volume)
        ensures
            final(self)@ == Some(le_bytes(volume)),
    {
        self.contents = Some(Self::encode(volume));
    }

    /// The level on record, or the default level where there is no record.
    pub fn query(&self) -> (volume: Volume)
        ensures
            volume == recorded(self@),
    {
        match &self.contents {
            Some(bytes) => {
                if bytes.len() == 4 {
                    let b0: u32 = bytes[0] as u32;
                    let b1: u32 = bytes[1] as u32;
                    let b2: u32 = bytes[2] as u32;
                    let b3: u32 = bytes[3] as u32;
                    b0 + 256 * b1 + 65536 * b2 + 16777216 * b3
                } else {
                    DEFAULT_VOLUME
                }
            },
            None => DEFAULT_VOLUME,
        }
    }
}

/// What a variable that may be unset holds, as a sequence of characters.
pub open spec fn view_of(value: Option<&str>) -> Option<Seq<char>> {
    match value {
        Some(s) => Some(s@),
        None => None,
    }
}

/// The place that was named, as a sequence of characters, or why none was.
pub open spec fn named(place: Result<String, PathError>) -> Result<Seq<char>, PathError> {
    match place {
        Ok(s) => Ok(s@),
        Err(e) => Err(e),
    }
}

/// A level that was saved is the level on record: the four bytes lose nothing.
pub proof fn lemma_save_then_query(volume: Volume)
    ensures
        le_bytes(volume).len() == 4,
        recorded(Some(le_bytes(volume))) == volume,
{
}

/// Without a file the default level is on record.
pub proof fn lemma_fresh_cache_gives_default()
    ensures
        recorded(None) == DEFAULT_VOLUME,
{
}

} // verus!
