use kitties::encoding::{encode, encode_dna_payload, kitty_id};
use kitties::genetics::{combine_dna, gen_dna, gen_gender};
use kitties::pallet::Pallet;
use kitties::types::{Config, Entropy, Error, Event, Gender, Kitty, KittyId};

const A: u64 = 1;
const B: u64 = 2;

fn entropy(tag: u8) -> Entropy {
    let mut dna_seed = [0u8; 32];
    let mut gender_seed = [0u8; 32];
    for i in 0..32 {
        dna_seed[i] = tag.wrapping_mul(31).wrapping_add(i as u8);
        gender_seed[i] = tag.wrapping_mul(17).wrapping_add(3 * i as u8);
    }
    Entropy { dna_seed, gender_seed, block_number: 100 + tag as u32 }
}

fn registry(max: u32) -> Pallet {
    Pallet::new(Config { max_kitty_owned: max })
}

#[test]
fn mint_without_explicit_dna_records_owner() {
    let mut p = registry(5);
    let e = entropy(1);
    let x = p.mint(&A, None, None, &e).unwrap();
    let k = p.kitties(&x).unwrap();
    assert_eq!(k.owner, A);
    assert_eq!(k.price, None);
    assert_eq!(k.dna, gen_dna(&e));
    assert_eq!(k.gender, gen_gender(&e));
    assert_eq!(p.kitty_cnt(), 1);
    assert_eq!(p.kitties_owned(&A), vec![x]);
    assert_eq!(x, kitty_id(&k));
}

#[test]
fn successful_mint_adds_exactly_one() {
    let mut p = registry(5);
    for t in 0..4u8 {
        let before = p.kitty_cnt();
        let dna = [t; 16];
        let k = Kitty { dna, price: None, gender: Gender::Male, owner: B };
        let id = kitty_id(&k);
        assert!(p.kitties(&id).is_none());
        let got = p.mint(&B, Some(dna), Some(Gender::Male), &entropy(t)).unwrap();
        assert_eq!(got, id);
        assert_eq!(p.kitty_cnt(), before + 1);
        assert_eq!(p.kitties(&id).unwrap().owner, B);
    }
    assert_eq!(p.kitties_owned(&B).len(), 4);
}

#[test]
fn mint_beyond_capacity_fails() {
    let mut p = registry(1);
    let first = p.mint(&A, Some([2u8; 16]), Some(Gender::Male), &entropy(1)).unwrap();
    let r = p.mint(&A, Some([3u8; 16]), None, &entropy(2));
    assert_eq!(r, Err(Error::ExceedMaxKittyOwned));
    assert_eq!(p.kitty_cnt(), 1);
    assert_eq!(p.kitties_owned(&A), vec![first]);
    let other = Kitty { dna: [3u8; 16], price: None, gender: gen_gender(&entropy(2)), owner: A };
    assert!(p.kitties(&kitty_id(&other)).is_none());
}

#[test]
fn capacity_holds_for_every_owner() {
    let mut p = registry(3);
    for t in 0..10u8 {
        let owner = (t % 2) as u64;
        let _ = p.mint(&owner, Some([t; 16]), Some(Gender::Female), &entropy(t));
        assert!(p.kitties_owned(&0).len() <= 3);
        assert!(p.kitties_owned(&1).len() <= 3);
    }
    assert_eq!(p.kitty_cnt(), 6);
}

#[test]
fn identical_explicit_mints_collide() {
    let mut p = registry(5);
    let dna = [9u8; 16];
    let first = p.mint(&A, Some(dna), Some(Gender::Female), &entropy(1)).unwrap();
    let second = p.mint(&A, Some(dna), Some(Gender::Female), &entropy(2));
    assert_eq!(second, Err(Error::DuplicateKitty));
    assert_eq!(p.kitty_cnt(), 1);
    assert_eq!(p.kitties_owned(&A), vec![first]);
    let third = p.mint(&B, Some(dna), Some(Gender::Female), &entropy(3)).unwrap();
    assert_ne!(first, third);
    assert_eq!(p.kitty_cnt(), 2);
}

#[test]
fn breed_with_missing_parent_fails() {
    let mut p = registry(5);
    let real = p.mint(&A, None, None, &entropy(1)).unwrap();
    let missing: KittyId = [0xEE; 32];
    let r = p.breed(&A, &missing, &real, &entropy(2));
    assert_eq!(r, Err(Error::KittyNotExist));
    let r = p.breed(&A, &real, &missing, &entropy(2));
    assert_eq!(r, Err(Error::KittyNotExist));
    assert_eq!(p.kitty_cnt(), 1);
    assert_eq!(p.kitties_owned(&A), vec![real]);
    assert!(p.kitties(&missing).is_none());
    assert_eq!(p.breed_dna(&missing, &real, &entropy(2)), Err(Error::KittyNotExist));
}

#[test]
fn breed_creates_combined_child() {
    let mut p = registry(5);
    let d1 = [0b1010_1010u8; 16];
    let d2 = [0b0101_0101u8; 16];
    let k1 = p.mint(&A, Some(d1), Some(Gender::Male), &entropy(1)).unwrap();
    let k2 = p.mint(&B, Some(d2), Some(Gender::Female), &entropy(2)).unwrap();
    let e = entropy(3);
    let child = p.breed(&B, &k1, &k2, &e).unwrap();
    let c = p.kitties(&child).unwrap();
    let mask = gen_dna(&e);
    assert_eq!(c.dna, combine_dna(&mask, &d1, &d2));
    assert_eq!(c.gender, gen_gender(&e));
    assert_eq!(c.owner, B);
    assert_eq!(p.kitty_cnt(), 3);
    assert_eq!(p.kitties_owned(&B), vec![k2, child]);
}

#[test]
fn breed_dna_follows_mask() {
    let mut p = registry(5);
    let d1 = [0b1100_0011u8; 16];
    let d2 = [0b0011_1100u8; 16];
    let k1 = p.mint(&A, Some(d1), Some(Gender::Male), &entropy(1)).unwrap();
    let k2 = p.mint(&A, Some(d2), Some(Gender::Male), &entropy(1)).unwrap();
    assert_eq!(p.breed_dna_with_mask(&k1, &k2, &[0xFF; 16]), Ok(d1));
    assert_eq!(p.breed_dna_with_mask(&k1, &k2, &[0x00; 16]), Ok(d2));
    assert_eq!(p.breed_dna_with_mask(&k1, &k2, &[0xF0; 16]), Ok([0b1100_1100u8; 16]));
    let e = entropy(4);
    assert_eq!(p.breed_dna(&k1, &k2, &e), Ok(combine_dna(&gen_dna(&e), &d1, &d2)));
}

#[test]
fn combine_bits_exhaustive() {
    let mask: [u8; 16] = [0x00, 0xFF, 0x0F, 0xF0, 0x55, 0xAA, 0x33, 0xCC, 0x81, 0x7E, 0x12, 0x34, 0x56, 0x78, 0x9A, 0xBC];
    let d1: [u8; 16] = [0xDE, 0xAD, 0xBE, 0xEF, 0x01, 0x23, 0x45, 0x67, 0x89, 0xAB, 0xCD, 0xEF, 0xFE, 0xDC, 0xBA, 0x98];
    let d2: [u8; 16] = [0x13, 0x57, 0x9B, 0xDF, 0x24, 0x68, 0xAC, 0xE0, 0xF1, 0xE2, 0xD3, 0xC4, 0xB5, 0xA6, 0x97, 0x88];
    let r = combine_dna(&mask, &d1, &d2);
    for i in 0..16 {
        for k in 0..8 {
            let want = if (mask[i] >> k) & 1 == 1 { (d1[i] >> k) & 1 } else { (d2[i] >> k) & 1 };
            assert_eq!((r[i] >> k) & 1, want);
        }
    }
    assert_eq!(r[0], 0x13);
    assert_eq!(r[1], 0xAD);
    assert_eq!(r[2], 0x9E);
}

#[test]
fn gender_parity_all_bytes() {
    for b in 0..=255u8 {
        let mut dna = [0x5Au8; 16];
        dna[0] = b;
        let want = if b % 2 == 0 { Gender::Male } else { Gender::Female };
        assert_eq!(Kitty::gender(&dna), want);
    }
}

#[test]
fn fresh_gender_uses_first_seed_byte() {
    let mut e = entropy(0);
    e.gender_seed[0] = 4;
    assert_eq!(gen_gender(&e), Gender::Male);
    e.gender_seed[0] = 7;
    assert_eq!(gen_gender(&e), Gender::Female);
}

#[test]
fn is_kitty_owner_cases() {
    let mut p = registry(5);
    let real = p.mint(&A, None, None, &entropy(1)).unwrap();
    assert_eq!(p.is_kitty_owner(&real, &A), Ok(true));
    assert_eq!(p.is_kitty_owner(&real, &B), Ok(false));
    assert_eq!(p.is_kitty_owner(&[0x11; 32], &A), Err(Error::KittyNotExist));
}

#[test]
fn create_kitty_needs_signed_origin() {
    let mut p = registry(5);
    assert_eq!(p.create_kitty(None, &entropy(1)).unwrap_err(), Error::Unauthenticated);
    assert_eq!(p.kitty_cnt(), 0);
    match p.create_kitty(Some(A), &entropy(1)) {
        Ok(Event::Created(who, id)) => {
            assert_eq!(who, A);
            assert_eq!(p.kitties(&id).unwrap().owner, A);
        }
        other => panic!("unexpected result {:?}", other),
    }
    assert_eq!(p.kitty_cnt(), 1);
}

#[test]
fn default_gender_is_male() {
    assert_eq!(Gender::default(), Gender::Male);
}

#[test]
fn record_layout_is_exact() {
    let k = Kitty { dna: [0xAB; 16], price: None, gender: Gender::Female, owner: 0x0102030405060708 };
    let mut want = vec![0xABu8; 16];
    want.push(0);
    want.push(1);
    want.extend_from_slice(&[8, 7, 6, 5, 4, 3, 2, 1]);
    assert_eq!(encode(&k), want);
    let priced = Kitty { price: Some(0x0201), gender: Gender::Male, ..k };
    let bytes = encode(&priced);
    assert_eq!(bytes.len(), 16 + 17 + 1 + 8);
    assert_eq!(&bytes[16..20], &[1, 0x01, 0x02, 0]);
    assert_eq!(bytes[33], 0);
}

#[test]
fn identifiers_are_blake2_256_of_record() {
    let k = Kitty { dna: [3; 16], price: None, gender: Gender::Male, owner: A };
    let id = kitty_id(&k);
    assert_eq!(id, sp_io::hashing::blake2_256(&encode(&k)));
    assert_eq!(encode(&k).len(), 26);
    assert_ne!(&id[..26], &encode(&k)[..]);
    let other = Kitty { owner: B, ..k };
    assert_ne!(id, kitty_id(&other));
}

#[test]
fn fresh_dna_is_blake2_128_of_seed_and_height() {
    let e = entropy(5);
    let payload = encode_dna_payload(&e.dna_seed, e.block_number);
    assert_eq!(payload.len(), 36);
    assert_eq!(&payload[32..], &105u32.to_le_bytes());
    let dna = gen_dna(&e);
    assert_eq!(dna, sp_io::hashing::blake2_128(&payload));
    assert_ne!(&dna[..], &payload[..16]);
    let later = Entropy { block_number: 106, ..e };
    assert_ne!(gen_dna(&later), dna);
}
