use image_server::singleflight::InFlightRegistry;
use image_server::transfer::Transfer;

#[test]
fn fresh_fetch_writes_and_forwards_identical_bytes() {
    let mut body: Vec<u8> = Vec::new();
    let mut i: u32 = 0;
    while i < 1024 {
        body.push((i % 256) as u8);
        i += 1;
    }

    let mut t = Transfer::new();
    let mut disk: Vec<u8> = Vec::new();
    let mut client: Vec<u8> = Vec::new();
    let mut offset = 0;
    while offset < body.len() {
        let end = (offset + 256).min(body.len());
        let chunk: Vec<u8> = body[offset..end].to_vec();
        disk.extend_from_slice(&chunk);
        let forward = t.should_forward();
        if forward {
            client.extend_from_slice(&chunk);
        }
        t.on_chunk(&chunk, forward);
        offset = end;
    }
    t.on_origin_end();

    assert!(t.is_promoted());
    assert_eq!(disk, body);
    assert_eq!(client, body);
}

#[test]
fn disconnect_mid_stream_still_persists_every_byte() {
    let mut t = Transfer::new();
    let mut disk: Vec<u8> = Vec::new();
    let mut client: Vec<u8> = Vec::new();

    let first = vec![1u8; 100];
    let second = vec![2u8; 100];
    let third = vec![3u8; 100];

    disk.extend_from_slice(&first);
    assert!(t.should_forward());
    client.extend_from_slice(&first);
    t.on_chunk(&first, true);

    disk.extend_from_slice(&second);
    t.on_chunk(&second, false);

    assert!(!t.should_forward());
    disk.extend_from_slice(&third);
    t.on_chunk(&third, false);

    t.on_origin_end();

    assert!(t.is_promoted());
    assert_eq!(disk.len(), 300);
    assert_eq!(client, vec![1u8; 100]);
}

#[test]
fn failed_transfer_never_promotes() {
    let mut t = Transfer::new();
    t.on_chunk(&vec![7u8; 10], true);
    t.on_failure();
    assert!(!t.is_promoted());
}

#[test]
fn writer_flushes_exactly_at_the_threshold() {
    let mut t = Transfer::new();
    assert!(!t.on_chunk(&vec![0u8; 100], true));
    assert!(t.on_chunk(&vec![0u8; 8092], true));
    assert!(!t.on_chunk(&vec![0u8; 8191], true));
    assert!(t.on_chunk(&vec![0u8; 1], true));
    assert!(t.on_chunk(&vec![0u8; 10000], true));
}

#[test]
fn second_concurrent_request_follows_the_leader() {
    let mut r = InFlightRegistry::new();
    let k = String::from("pokemon/pikachu.png");
    assert!(r.begin(&k));
    assert!(!r.begin(&k));
    assert!(!r.begin(&k));
    r.complete(&k);
    assert!(r.begin(&k));
}

#[test]
fn distinct_keys_do_not_block_each_other() {
    let mut r = InFlightRegistry::new();
    let a = String::from("pokemon/pikachu.png");
    let b = String::from("items/potion.png");
    assert!(r.begin(&a));
    assert!(r.begin(&b));
    assert!(!r.begin(&a));
    r.complete(&a);
    assert!(!r.begin(&b));
    assert!(r.begin(&a));
    r.complete(&b);
    assert!(r.begin(&b));
}
