use gpu_stresser::memory::{fill_pattern, new_ram_buffer, ram_stress_step, RAM_BUFFER_BYTES};

#[test]
fn ram_buffer_is_half_a_gibibyte_of_zeros() {
    let buf = new_ram_buffer();
    assert_eq!(RAM_BUFFER_BYTES, 536870912);
    assert_eq!(buf.len(), RAM_BUFFER_BYTES);
    assert_eq!(buf[0], 0);
    assert_eq!(buf[12345], 0);
    assert_eq!(buf[RAM_BUFFER_BYTES - 1], 0);
}

#[test]
fn fill_writes_index_modulo_256() {
    let mut buf = vec![0xAAu8; 600];
    fill_pattern(&mut buf);
    assert_eq!(buf.len(), 600);
    assert_eq!(buf[0], 0);
    assert_eq!(buf[1], 1);
    assert_eq!(buf[255], 255);
    assert_eq!(buf[256], 0);
    assert_eq!(buf[257], 1);
    assert_eq!(buf[599], 87);
    for (i, b) in buf.iter().enumerate() {
        assert_eq!(*b as usize, i % 256);
    }
}

#[test]
fn fill_empty_buffer() {
    let mut buf: Vec<u8> = Vec::new();
    fill_pattern(&mut buf);
    assert!(buf.is_empty());
}

#[test]
fn fill_twice_gives_same_bytes() {
    let mut buf = vec![7u8; 1000];
    fill_pattern(&mut buf);
    let first = buf.clone();
    fill_pattern(&mut buf);
    assert_eq!(buf, first);
}

#[test]
fn step_with_stop_raised_leaves_buffer_and_ends() {
    let mut buf = vec![3u8; 400];
    assert!(!ram_stress_step(true, &mut buf));
    assert_eq!(buf, vec![3u8; 400]);
}

#[test]
fn step_with_stop_clear_fills_and_goes_on() {
    let mut buf = vec![3u8; 400];
    assert!(ram_stress_step(false, &mut buf));
    assert_eq!(buf.len(), 400);
    for (i, b) in buf.iter().enumerate() {
        assert_eq!(*b as usize, i % 256);
    }
}

#[test]
fn step_loop_stops_at_first_raised_signal() {
    let reads = [false, false, true, false];
    let mut buf = vec![0xFFu8; 300];
    let mut passes: usize = 0;
    let mut k: usize = 0;
    while ram_stress_step(reads[k], &mut buf) {
        passes += 1;
        k += 1;
    }
    assert_eq!(passes, 2);
    assert_eq!(k, 2);
    assert_eq!(buf[299], 43);
}
