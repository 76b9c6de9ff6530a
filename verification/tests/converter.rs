use music2psp::converter::{AudioConverter, AudioFiletype, ConvertedFile};
use music2psp::metadata::{Tag, TagKey, TrackMetadata};

fn tagged(title: &str, album: &str, number: &str) -> TrackMetadata {
    TrackMetadata::from_tags(&vec![
        Tag { key: TagKey::TrackTitle, value: String::from(title) },
        Tag { key: TagKey::Album, value: String::from(album) },
        Tag { key: TagKey::TrackNumber, value: String::from(number) },
    ])
}

#[test]
fn test_mp3() {
    let input_path = String::from("test_media/test.mp3");
    let dest_path = "test_media/";
    let audio_converter = AudioConverter::new(input_path.clone(), AudioFiletype::MP3);
    assert_eq!(audio_converter.from_type(), AudioFiletype::MP3);
    assert_eq!(audio_converter.to_type(), AudioFiletype::MP3);
    assert_eq!(audio_converter.src_path(), input_path);
    let res = audio_converter.convert_file_to_mp3(dest_path, &tagged("T", "A", "1"), vec![1, 2]);
    assert_eq!(res.path, "test_media//A/01 - T.mp3");
}

#[test]
fn job_infers_the_source_type_from_the_extension() {
    let flac = AudioConverter::try_new(String::from("/m/a.flac"), AudioFiletype::MP3).unwrap();
    assert_eq!(flac.from_type(), AudioFiletype::FLAC);
    assert_eq!(flac.probe_hint(), "flac");
    let mp3 = AudioConverter::try_new(String::from("/m/a.mp3"), AudioFiletype::MP3).unwrap();
    assert_eq!(mp3.from_type(), AudioFiletype::MP3);
    assert_eq!(mp3.probe_hint(), "mp3");
    let ogg = AudioConverter::try_new(String::from("/m/a.ogg"), AudioFiletype::MP3).unwrap();
    assert_eq!(ogg.from_type(), AudioFiletype::OGG);
    assert_eq!(ogg.probe_hint(), "ogg");
    assert_eq!(AudioConverter::new(String::from("b.ogg"), AudioFiletype::MP3).from_type(), AudioFiletype::OGG);
}

#[test]
fn job_is_constructed_exactly_where_std_finds_a_supported_extension() {
    for path in [
        "song.mp3", "song.mp3/", "song.mp3/.", "song.mp3//./", "song.mp3/..", "/m/a.flac",
        "/m/a.flac/", "a.ogg/.", "a.aac", "a.wav", "a", "a/", ".mp3", ".mp3/", "m.flac/a",
        "a.MP3", "a.mp3.", "a..mp3", "", "/", ".", "..",
    ] {
        let expected = match std::path::Path::new(path).extension().and_then(|e| e.to_str()) {
            Some("flac") => Some(AudioFiletype::FLAC),
            Some("mp3") => Some(AudioFiletype::MP3),
            Some("ogg") => Some(AudioFiletype::OGG),
            _ => None,
        };
        let built = AudioConverter::try_new(String::from(path), AudioFiletype::MP3);
        assert_eq!(built.as_ref().map(|c| c.from_type()), expected, "source type of {:?}", path);
        if let Some(converter) = built {
            assert_eq!(converter.src_path(), path);
            assert_eq!(converter.to_type(), AudioFiletype::MP3);
        }
    }
}

#[test]
fn unrecognized_or_missing_extension_fails_construction() {
    assert!(AudioConverter::try_new(String::from("/m/a.aac"), AudioFiletype::MP3).is_none());
    assert!(AudioConverter::try_new(String::from("/m/a.wav"), AudioFiletype::MP3).is_none());
    assert!(AudioConverter::try_new(String::from("/m/a"), AudioFiletype::MP3).is_none());
    assert!(AudioConverter::try_new(String::from("/m/.flac"), AudioFiletype::MP3).is_none());
    assert!(AudioConverter::try_new(String::from("/m.flac/a"), AudioFiletype::MP3).is_none());
    assert!(AudioConverter::try_new(String::new(), AudioFiletype::MP3).is_none());
}

#[test]
fn converted_file_goes_under_album_with_padded_number() {
    let converter = AudioConverter::new(String::from("/src/x.flac"), AudioFiletype::MP3);
    let file = converter.convert_file_to_mp3("D", &tagged("Song", "Album", "3"), vec![0xFF, 0xFB]);
    assert_eq!(
        file,
        ConvertedFile {
            directory: String::from("D/Album/"),
            path: String::from("D/Album/03 - Song.mp3"),
            bytes: vec![0xFF, 0xFB],
        }
    );
}

#[test]
fn converted_file_name_is_sanitized_but_not_the_album() {
    let converter = AudioConverter::new(String::from("/src/x.ogg"), AudioFiletype::MP3);
    let file = converter.convert_file_to_mp3(
        "/out",
        &tagged("Foo: Bar/Baz", "AC/DC: Live", "12"),
        Vec::new(),
    );
    assert_eq!(file.directory, "/out/AC/DC: Live/");
    assert_eq!(file.path, "/out/AC/DC: Live/12 - Foo_ Bar_Baz.mp3");
    assert!(file.bytes.is_empty());
}

#[test]
fn converted_file_of_untagged_track() {
    let converter = AudioConverter::new(String::from("x.mp3"), AudioFiletype::MP3);
    let file = converter.convert_file_to_mp3("D", &TrackMetadata::new(), vec![7]);
    assert_eq!(file.directory, "D//");
    assert_eq!(file.path, "D//0 - .mp3");
}

#[test]
fn sidecar_patterns_rank_jpg_jpeg_png() {
    let converter = AudioConverter::new(String::from("/music/album/song.flac"), AudioFiletype::MP3);
    assert_eq!(
        converter.sidecar_patterns(),
        vec![
            String::from("/music/album/*.jpg"),
            String::from("/music/album/*.jpeg"),
            String::from("/music/album/*.png"),
        ]
    );
    let bare = AudioConverter::new(String::from("song.flac"), AudioFiletype::MP3);
    assert_eq!(
        bare.sidecar_patterns(),
        vec![String::from("./*.jpg"), String::from("./*.jpeg"), String::from("./*.png")]
    );
}
