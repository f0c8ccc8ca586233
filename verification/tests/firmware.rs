use dfu_core::error::DfuError;
use dfu_core::firmware::Firmware;

fn image(len: usize) -> Firmware {
    let data: Vec<u8> = (0..len).map(|i| (i % 251) as u8).collect();
    Firmware::load("fw.bin".to_string(), Ok(data)).unwrap()
}

#[test]
fn load_keeps_bytes_and_path() {
    let f = Firmware::load("firmware.bin".to_string(), Ok(vec![1, 2, 3])).unwrap();
    assert_eq!(f.data, vec![1, 2, 3]);
    assert_eq!(f.path, "firmware.bin");
    assert_eq!(f.size(), 3);
}

#[test]
fn load_refuses_empty_file() {
    match Firmware::load("empty.bin".to_string(), Ok(Vec::new())) {
        Err(DfuError::InvalidFirmware(m)) => assert_eq!(m, "file is empty"),
        other => panic!("unexpected {:?}", other),
    }
}

#[test]
fn load_reports_read_failure() {
    match Firmware::load("gone.bin".to_string(), Err("No such file or directory (os error 2)".to_string())) {
        Err(DfuError::InvalidFirmware(m)) => {
            assert_eq!(m, "could not read file: No such file or directory (os error 2)")
        }
        other => panic!("unexpected {:?}", other),
    }
}

#[test]
fn chunks_of_partial_last_block() {
    let f = image(5000);
    let c = f.chunks(2048);
    let lens: Vec<usize> = c.iter().map(|x| x.len()).collect();
    assert_eq!(lens, vec![2048, 2048, 904]);
    assert_eq!(c.concat(), f.data);
}

#[test]
fn chunks_of_exact_multiple() {
    let f = image(4096);
    let c = f.chunks(2048);
    assert_eq!(c.len(), 2);
    assert!(c.iter().all(|x| x.len() == 2048));
    assert_eq!(c.concat(), f.data);
}

#[test]
fn chunks_match_slice_chunks() {
    let f = image(1000);
    for size in [1usize, 3, 7, 999, 1000, 1001, 5000] {
        let ours = f.chunks(size);
        let std_chunks: Vec<Vec<u8>> = f.data.chunks(size).map(|c| c.to_vec()).collect();
        assert_eq!(ours, std_chunks);
    }
}

#[test]
fn chunks_of_empty_data() {
    let f = Firmware { data: Vec::new(), path: String::new() };
    assert!(f.chunks(2048).is_empty());
    assert_eq!(f.size(), 0);
}
