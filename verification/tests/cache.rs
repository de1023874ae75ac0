use volfade::cache::{PathError, PreviousVolume, VolumeCache};
use volfade::volume::{DEFAULT_VOLUME, NORMAL};

#[test]
fn fresh_cache_gives_the_default_level() {
    let cache = VolumeCache::absent();
    assert_eq!(cache.contents, None);
    assert_eq!(cache.query(), DEFAULT_VOLUME);
    assert_eq!(cache.query(), 16384);
    assert_eq!(DEFAULT_VOLUME, NORMAL / 4);
}

#[test]
fn previous_volume_is_the_same_cache() {
    let mut cache = PreviousVolume::absent();
    cache.save(40000);
    assert_eq!(cache.query(), 40000);
}

#[test]
fn save_then_query_gives_back_the_level() {
    let levels: Vec<u32> =
        vec![0, 1, 255, 256, 16384, 32768, 65536, 0x0102_0304, u32::MAX / 2, u32::MAX];
    for level in levels {
        let mut cache = VolumeCache::absent();
        cache.save(level);
        assert_eq!(cache.query(), level);
    }
}

#[test]
fn save_overwrites_the_record() {
    let mut cache = VolumeCache::absent();
    cache.save(111);
    cache.save(222);
    assert_eq!(cache.query(), 222);
    assert_eq!(cache.contents, Some(vec![222, 0, 0, 0]));
}

#[test]
fn record_is_four_bytes_lowest_first() {
    assert_eq!(VolumeCache::encode(0x0102_0304), vec![0x04, 0x03, 0x02, 0x01]);
    assert_eq!(VolumeCache::encode(16384), vec![0x00, 0x40, 0x00, 0x00]);
    assert_eq!(VolumeCache::encode(0), vec![0, 0, 0, 0]);
    assert_eq!(VolumeCache::encode(u32::MAX), vec![255, 255, 255, 255]);
    assert_eq!(VolumeCache::encode(65536), 65536u32.to_le_bytes().to_vec());
}

#[test]
fn query_reads_four_bytes_lowest_first() {
    let cache = VolumeCache { contents: Some(vec![0x04, 0x03, 0x02, 0x01]) };
    assert_eq!(cache.query(), 0x0102_0304);
    let cache = VolumeCache { contents: Some(vec![255, 255, 255, 255]) };
    assert_eq!(cache.query(), u32::MAX);
    let cache = VolumeCache { contents: Some(vec![0, 0, 0, 0]) };
    assert_eq!(cache.query(), 0);
}

#[test]
fn malformed_record_gives_the_default_level() {
    for contents in [vec![], vec![1], vec![1, 2, 3], vec![1, 2, 3, 4, 5], vec![0; 8]] {
        let cache = VolumeCache { contents: Some(contents) };
        assert_eq!(cache.query(), DEFAULT_VOLUME);
    }
}

#[test]
fn path_goes_by_the_cache_directory_first() {
    assert_eq!(
        VolumeCache::get_dir(Some("/xdg"), Some("/home/me"), Some("/tmp")),
        Ok("/xdg/volfade-rs".to_string())
    );
    assert_eq!(
        VolumeCache::get_path(Some("/xdg"), Some("/home/me"), Some("/tmp")),
        Ok("/xdg/volfade-rs/previous_volume".to_string())
    );
    assert_eq!(
        VolumeCache::get_path(Some("/xdg"), None, None),
        Ok("/xdg/volfade-rs/previous_volume".to_string())
    );
}

#[test]
fn path_goes_by_the_home_directory_next() {
    assert_eq!(
        VolumeCache::get_dir(None, Some("/home/me"), Some("/tmp")),
        Ok("/home/me/.cache/volfade-rs".to_string())
    );
    assert_eq!(
        VolumeCache::get_path(None, Some("/home/me"), None),
        Ok("/home/me/.cache/volfade-rs/previous_volume".to_string())
    );
}

#[test]
fn path_falls_back_on_the_directory_offered() {
    assert_eq!(VolumeCache::get_dir(None, None, Some("/tmp")), Ok("/tmp/volfade-rs".to_string()));
    assert_eq!(
        VolumeCache::get_path(None, None, Some("/tmp")),
        Ok("/tmp/volfade-rs/previous_volume".to_string())
    );
}

#[test]
fn path_fails_without_any_directory() {
    assert_eq!(VolumeCache::get_dir(None, None, None), Err(PathError::HomeNotSet));
    assert_eq!(VolumeCache::get_path(None, None, None), Err(PathError::HomeNotSet));
}

#[test]
fn empty_cache_directory_is_taken_as_given() {
    assert_eq!(
        VolumeCache::get_path(Some(""), Some("/home/me"), None),
        Ok("/volfade-rs/previous_volume".to_string())
    );
}
