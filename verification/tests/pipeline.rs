use std::io::Cursor;

use mp3lame_encoder::{DualPcm, FlushNoGap};
use music2psp::converter::{AudioConverter, AudioFiletype};
use music2psp::decode::{after_decode, after_read, begin_decoding, DecodeStep, TrackInfo};
use music2psp::encode::{configure_encoder, output_capacity};
use music2psp::error::DecodeFailure;
use music2psp::metadata::{choose_metadata_source, MetadataSource, Tag, TagKey};

fn tag_in(bytes: Vec<u8>, key: symphonia::core::meta::StandardTagKey) -> Option<String> {
    let stream =
        symphonia::core::io::MediaSourceStream::new(Box::new(Cursor::new(bytes)), Default::default());
    let mut hint = symphonia::core::probe::Hint::new();
    hint.with_extension("mp3");
    let mut probed = symphonia::default::get_probe()
        .format(
            &hint,
            stream,
            &symphonia::core::formats::FormatOptions::default(),
            &symphonia::core::meta::MetadataOptions::default(),
        )
        .unwrap();
    let in_container = probed.format.metadata().current().is_some();
    let in_probe = probed.metadata.get().as_ref().and_then(|log| log.current()).is_some();
    let find = |revision: &symphonia::core::meta::MetadataRevision| {
        revision
            .tags()
            .iter()
            .find(|tag| tag.std_key == Some(key))
            .map(|tag| tag.value.to_string())
    };
    match choose_metadata_source(in_container, in_probe).unwrap() {
        MetadataSource::Container => find(probed.format.metadata().current().unwrap()),
        MetadataSource::Probe => find(probed.metadata.get().unwrap().current().unwrap()),
    }
}

#[test]
fn tagged_flac_source_becomes_an_mp3_under_its_album() {
    let converter = AudioConverter::new(String::from("/music/in/track.flac"), AudioFiletype::MP3);
    assert_eq!(converter.from_type(), AudioFiletype::FLAC);

    let tags = vec![
        Tag { key: TagKey::TrackTitle, value: String::from("Song") },
        Tag { key: TagKey::Album, value: String::from("Album") },
        Tag { key: TagKey::TrackNumber, value: String::from("3") },
    ];
    let mut track = AudioConverter::extract_metadata(&tags, &Vec::new(), None).unwrap();

    let tracks = vec![TrackInfo { id: 0, has_codec: true, sample_rate: Some(44_100) }];
    let plan = begin_decoding(&tracks, &mut track).unwrap();
    assert_eq!(plan.track_id, 0);

    let mut left: Vec<f32> = Vec::new();
    let mut right: Vec<f32> = Vec::new();
    let packets: Vec<Result<u32, DecodeFailure>> = vec![
        Ok(0),
        Ok(9),
        Ok(0),
        Err(DecodeFailure::Io { unexpected_eof: true, message: String::from("end of stream") }),
    ];
    let mut end = None;
    for read in packets {
        match after_read(plan.track_id, read) {
            DecodeStep::Skip => continue,
            DecodeStep::Stop(result) => {
                end = Some(result);
                break;
            }
            DecodeStep::Decode => {
                left.extend((0..1152).map(|i| (i as f32 / 1152.0) - 0.5));
                right.extend((0..1152).map(|i| 0.5 - (i as f32 / 1152.0)));
                assert_eq!(after_decode(Ok(())), None);
            }
        }
    }
    assert_eq!(end, Some(Ok(())));
    assert_eq!(left.len(), 2 * 1152);

    let mut encoder = configure_encoder(&track).unwrap();
    let mut mp3 = Vec::new();
    mp3.reserve(output_capacity(left.len()));
    encoder.encode_to_vec(DualPcm { left: &left, right: &right }, &mut mp3).unwrap();
    encoder.flush_to_vec::<FlushNoGap>(&mut mp3).unwrap();

    let file = converter.convert_file_to_mp3("D", &track, mp3);
    assert_eq!(file.directory, "D/Album/");
    assert_eq!(file.path, "D/Album/03 - Song.mp3");
    assert_eq!(
        tag_in(file.bytes.clone(), symphonia::core::meta::StandardTagKey::Album),
        Some(String::from("Album"))
    );
    assert_eq!(
        tag_in(file.bytes, symphonia::core::meta::StandardTagKey::TrackTitle),
        Some(String::from("Song"))
    );
}
