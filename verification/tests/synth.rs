use rysyn::synth::GlobalSynthState;

#[test]
fn phase_reads_back_last_write() {
    let mut s = GlobalSynthState::new();
    assert_eq!(f32::from_bits(s.get_phase(3)), 0.0);
    s.set_phase(3, 0.25f32.to_bits());
    s.set_phase(4, 0.5f32.to_bits());
    assert_eq!(f32::from_bits(s.get_phase(3)), 0.25);
    s.set_phase(3, 0.75f32.to_bits());
    assert_eq!(f32::from_bits(s.get_phase(3)), 0.75);
    assert_eq!(f32::from_bits(s.get_phase(4)), 0.5);
    assert_eq!(s.get_phase(5), 0);
}
