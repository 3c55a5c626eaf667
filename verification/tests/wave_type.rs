use wave::wave::{switch_wave_type, WaveType};

#[test]
fn switching_walks_the_four_waveforms_in_order() {
    assert_eq!(switch_wave_type(WaveType::Sine), WaveType::Square);
    assert_eq!(switch_wave_type(WaveType::Square), WaveType::Sawtooth);
    assert_eq!(switch_wave_type(WaveType::Sawtooth), WaveType::Triangle);
    assert_eq!(switch_wave_type(WaveType::Triangle), WaveType::Sine);
}

#[test]
fn four_switches_lead_back_and_fewer_do_not() {
    for start in [WaveType::Sine, WaveType::Square, WaveType::Sawtooth, WaveType::Triangle] {
        let one = switch_wave_type(start);
        let two = switch_wave_type(one);
        let three = switch_wave_type(two);
        let four = switch_wave_type(three);
        assert_ne!(one, start);
        assert_ne!(two, start);
        assert_ne!(three, start);
        assert_eq!(four, start);
    }
}
