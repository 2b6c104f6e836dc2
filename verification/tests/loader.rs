use rysyn::loader::{AudioLoader, DecodeEvent, LoaderStep, PacketEvent};

#[test]
fn track_selection() {
    assert_eq!(AudioLoader::first_playable_track(&vec![false, true, true]), Some(1));
    assert_eq!(AudioLoader::first_playable_track(&vec![false]), None);
    assert_eq!(AudioLoader::select_track(&vec![true]), Ok(0));
    assert_eq!(AudioLoader::select_track(&vec![]), Err("no supported audio tracks".to_string()));
    assert_eq!(
        AudioLoader::reselect_track(&vec![false, false]),
        Err("No valid audio track found after reset".to_string())
    );
    assert_eq!(AudioLoader::reselect_track(&vec![false, true]), Ok(1));
}

#[test]
fn packet_decisions() {
    assert!(matches!(AudioLoader::after_packet(1, PacketEvent::Packet { track_id: 1 }), LoaderStep::Decode));
    assert!(matches!(AudioLoader::after_packet(1, PacketEvent::Packet { track_id: 2 }), LoaderStep::Skip));
    assert!(matches!(AudioLoader::after_packet(1, PacketEvent::EndOfStream), LoaderStep::Finish));
    assert!(matches!(AudioLoader::after_packet(1, PacketEvent::ResetRequired), LoaderStep::Reset));
    match AudioLoader::after_packet(1, PacketEvent::Failed("bad".to_string())) {
        LoaderStep::Fail(m) => assert_eq!(m, "bad"),
        other => panic!("unexpected {:?}", other),
    }
}

#[test]
fn decode_decisions() {
    let mut samples: Vec<u32> = vec![1, 2];
    assert!(matches!(AudioLoader::after_decode(&mut samples, DecodeEvent::Decoded(vec![3, 4])), LoaderStep::Append));
    assert_eq!(samples, vec![1, 2, 3, 4]);
    assert!(matches!(AudioLoader::after_decode(&mut samples, DecodeEvent::EndOfStream), LoaderStep::Finish));
    assert!(matches!(AudioLoader::after_decode(&mut samples, DecodeEvent::Malformed), LoaderStep::Skip));
    match AudioLoader::after_decode(&mut samples, DecodeEvent::Failed("limit".to_string())) {
        LoaderStep::Fail(m) => assert_eq!(m, "limit"),
        other => panic!("unexpected {:?}", other),
    }
    assert_eq!(samples, vec![1, 2, 3, 4]);
    assert_eq!(AudioLoader::recreate_failure("nope"), "Failed to recreate decoder: nope");
}

#[test]
fn decoded_samples_keep_their_bits() {
    let mut samples: Vec<u32> = Vec::new();
    let bits: Vec<u32> = [0.5f32, -1.0f32].iter().map(|x| x.to_bits()).collect();
    AudioLoader::after_decode(&mut samples, DecodeEvent::Decoded(bits));
    let back: Vec<f32> = samples.iter().map(|b| f32::from_bits(*b)).collect();
    assert_eq!(back, vec![0.5f32, -1.0f32]);
}
