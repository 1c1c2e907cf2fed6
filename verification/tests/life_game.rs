use life_game::frame_clock::FrameClock;
use life_game::frame_rate::{FpsSample, FrameRate};
use life_game::simulation::{
    particle_flag, uniform_acc_matrix, valid_class_count, workgroup_count, MAX_PARTICLE_CLASSES,
    PARTICLES_PER_WORKGROUP,
};
use life_game::vertex_layout::{vertex_desc, AttributeFormat, StepMode, VertexAttribute};

#[test]
fn frame_rate_empty_has_no_rate() {
    let fr = FrameRate::new(100);
    assert_eq!(fr.get_fps(), None);
}

#[test]
fn frame_rate_single_sample_has_no_rate() {
    let mut fr = FrameRate::new(100);
    fr.add(1_000_000);
    assert_eq!(fr.get_fps(), None);
}

#[test]
fn frame_rate_two_samples() {
    let mut fr = FrameRate::new(100);
    fr.add(1_000_000);
    fr.add(1_016_000);
    assert_eq!(fr.get_fps(), Some(FpsSample { frames: 1, elapsed_micros: 16_000 }));
}

#[test]
fn frame_rate_keeps_only_latest() {
    // Window of 3: after recording 10, 20, 30, 40, 50 it holds 30, 40, 50.
    let mut fr = FrameRate::new(3);
    for t in [10, 20, 30, 40, 50] {
        fr.add(t);
    }
    assert_eq!(fr.get_fps(), Some(FpsSample { frames: 2, elapsed_micros: 20 }));
}

#[test]
fn frame_rate_window_of_two() {
    let mut fr = FrameRate::new(2);
    fr.add(5);
    fr.add(7);
    fr.add(100);
    assert_eq!(fr.get_fps(), Some(FpsSample { frames: 1, elapsed_micros: 93 }));
}

#[test]
fn frame_rate_extreme_times_do_not_overflow() {
    let mut fr = FrameRate::new(2);
    fr.add(i64::MIN);
    fr.add(i64::MAX);
    assert_eq!(
        fr.get_fps(),
        Some(FpsSample { frames: 1, elapsed_micros: i64::MAX as i128 - i64::MIN as i128 })
    );
}

#[test]
fn frame_rate_sixty_frames_per_second() {
    let mut fr = FrameRate::new(100);
    for i in 0..61i64 {
        fr.add(i * 1_000_000 / 60);
    }
    let s = fr.get_fps().unwrap();
    assert_eq!(s.frames, 60);
    assert_eq!(s.elapsed_micros, 1_000_000);
}

#[test]
fn frame_clock_ticks() {
    let mut clock = FrameClock::new(100, 1_000);
    assert_eq!(clock.tick(17_000), 16_000);
    assert_eq!(clock.last_frame_time, 17_000);
    assert_eq!(clock.tick(50_000), 33_000);
    assert_eq!(clock.frame_rate.get_fps(), Some(FpsSample { frames: 1, elapsed_micros: 33_000 }));
}

#[test]
fn frame_clock_first_tick_records_one_sample() {
    let mut clock = FrameClock::new(100, 0);
    assert_eq!(clock.tick(10), 10);
    assert_eq!(clock.frame_rate.get_fps(), None);
}

#[test]
fn frame_clock_time_going_backwards() {
    let mut clock = FrameClock::new(2, 100);
    assert_eq!(clock.tick(40), -60);
}

#[test]
fn vertex_layout_matches_particle() {
    let layout = vertex_desc();
    assert_eq!(layout.array_stride, 32);
    assert_eq!(layout.step_mode, StepMode::Vertex);
    let expected = [
        (AttributeFormat::Float32x2, 0, 0),
        (AttributeFormat::Float32x2, 8, 1),
        (AttributeFormat::Float32x2, 16, 2),
        (AttributeFormat::Uint32, 24, 3),
        (AttributeFormat::Uint32, 28, 4),
    ];
    assert_eq!(layout.attributes.len(), expected.len());
    for (a, (format, offset, loc)) in layout.attributes.iter().zip(expected) {
        assert_eq!(*a, VertexAttribute { format, offset, shader_location: loc });
    }
}

#[test]
fn vertex_attributes_do_not_overlap() {
    let layout = vertex_desc();
    for w in layout.attributes.windows(2) {
        assert_eq!(w[0].offset + w[0].format.size(), w[1].offset);
    }
    let last = layout.attributes.last().unwrap();
    assert_eq!(last.offset + last.format.size(), layout.array_stride);
}

#[test]
fn attribute_sizes() {
    assert_eq!(AttributeFormat::Float32x2.size(), 8);
    assert_eq!(AttributeFormat::Uint32.size(), 4);
}

#[test]
fn workgroups_cover_particles() {
    assert_eq!(PARTICLES_PER_WORKGROUP, 256);
    assert_eq!(workgroup_count(0), 0);
    assert_eq!(workgroup_count(1), 1);
    assert_eq!(workgroup_count(256), 1);
    assert_eq!(workgroup_count(257), 2);
    assert_eq!(workgroup_count(8192), 32);
    assert_eq!(workgroup_count(u32::MAX), 16_777_216);
}

#[test]
fn particle_flags_carry_class() {
    for class in 0..MAX_PARTICLE_CLASSES {
        let flag = particle_flag(class);
        assert_eq!(flag, class as u32);
        assert_eq!(flag & 7, class as u32);
        assert_eq!(flag & 8, 0);
    }
    assert_eq!(particle_flag(7), 7);
}

#[test]
fn uniform_matrix_places_entries_in_first_word() {
    let mut m = [0u32; 25];
    for (i, v) in m.iter_mut().enumerate() {
        *v = 0x3f80_0000 + i as u32;
    }
    let u = uniform_acc_matrix(&m);
    assert_eq!(u.len(), 25);
    for i in 0..25 {
        assert_eq!(u[i], [m[i], 0, 0, 0]);
    }
}

#[test]
fn class_count_limit() {
    assert!(valid_class_count(0));
    assert!(valid_class_count(1));
    assert!(valid_class_count(5));
    assert!(!valid_class_count(6));
    assert!(!valid_class_count(usize::MAX));
}

#[test]
fn workgroups_round_up() {
    assert_eq!(workgroup_count(200), 1);
    assert_eq!(workgroup_count(255), 1);
    assert_eq!(workgroup_count(512), 2);
    assert_eq!(workgroup_count(513), 3);
}
