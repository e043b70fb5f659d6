use nameserver::error::{ClaimError, VoteError};
use nameserver::state::{Metadata, ServerData, Vote, VoterCheck};

#[test]
fn server_data_round_trip() {
    let mut buf = [0u8; 4];
    ServerData::pack(ServerData { name_count: 0x0102_0304 }, &mut buf).unwrap();
    assert_eq!(buf, [4, 3, 2, 1]);
    assert_eq!(ServerData::unpack_unchecked(&buf).unwrap().name_count, 0x0102_0304);
}

#[test]
fn server_data_reads_little_endian() {
    assert_eq!(ServerData::unpack_from_slice(&[1, 0, 0, 0]).unwrap().name_count, 1);
    assert_eq!(ServerData::unpack_from_slice(&[0, 1, 0, 0]).unwrap().name_count, 256);
    assert_eq!(ServerData::unpack_from_slice(&[0, 0, 0, 128]).unwrap().name_count, 1 << 31);
    assert_eq!(
        ServerData::unpack_from_slice(&[255, 255, 255, 255]).unwrap().name_count,
        u32::MAX
    );
}

#[test]
fn server_data_reads_no_further_than_its_length() {
    assert_eq!(ServerData::unpack_from_slice(&[7, 0, 0, 0, 9, 9]).unwrap().name_count, 7);
    let mut buf = [9u8; 6];
    ServerData { name_count: 7 }.pack_into_slice(&mut buf);
    assert_eq!(buf, [7, 0, 0, 0, 9, 9]);
}

#[test]
fn server_data_refuses_other_lengths() {
    assert_eq!(ServerData::unpack_unchecked(&[0u8; 3]), Err(ClaimError::InvalidAccountData));
    assert_eq!(ServerData::unpack_unchecked(&[0u8; 5]), Err(ClaimError::InvalidAccountData));
    let mut buf = [9u8; 5];
    assert_eq!(
        ServerData::pack(ServerData { name_count: 1 }, &mut buf),
        Err(ClaimError::InvalidAccountData)
    );
    assert_eq!(buf, [9u8; 5]);
}

#[test]
fn voter_check_round_trip() {
    let mut buf = [0u8; 4];
    VoterCheck { voted_for: 2 }.pack_into_slice(&mut buf);
    assert_eq!(buf, [2, 0, 0, 0]);
    assert_eq!(VoterCheck::unpack_from_slice(&buf).unwrap().voted_for, 2);
    assert_eq!(
        VoterCheck::unpack_from_slice(&[0xef, 0xbe, 0xad, 0xde]).unwrap().voted_for,
        0xdead_beef
    );
}

#[test]
fn vote_accepts_the_two_candidates() {
    assert_eq!(Vote::unpack_from_slice(&[1]).unwrap().candidate, 1);
    assert_eq!(Vote::unpack_from_slice(&[2, 77]).unwrap().candidate, 2);
}

#[test]
fn vote_refuses_any_other_candidate() {
    for byte in [0u8, 3, 255] {
        assert_eq!(
            Vote::unpack_from_slice(&[byte]),
            Err(ClaimError::Custom(VoteError::UnexpectedCandidate))
        );
    }
}

#[test]
fn vote_writes_its_candidate() {
    let mut buf = [9u8; 2];
    Vote { candidate: 2 }.pack_into_slice(&mut buf);
    assert_eq!(buf, [2, 9]);
}

#[test]
fn metadata_round_trip() {
    let mut bytes = [0u8; 32];
    for (i, b) in bytes.iter_mut().enumerate() {
        *b = i as u8 + 1;
    }
    let metadata = Metadata::unpack_unchecked(&bytes).unwrap();
    assert_eq!(metadata.acct_id, bytes);
    assert!(!metadata.is_unclaimed());
    let mut out = [0u8; 32];
    Metadata::pack(metadata, &mut out).unwrap();
    assert_eq!(out, bytes);
}

#[test]
fn metadata_of_zero_bytes_is_unclaimed() {
    assert!(Metadata::unpack_from_slice(&[0u8; 32]).unwrap().is_unclaimed());
    let mut bytes = [0u8; 32];
    bytes[31] = 1;
    assert!(!Metadata::unpack_from_slice(&bytes).unwrap().is_unclaimed());
    bytes[31] = 0;
    bytes[0] = 1;
    assert!(!Metadata::unpack_from_slice(&bytes).unwrap().is_unclaimed());
}

#[test]
fn metadata_refuses_other_lengths() {
    assert_eq!(
        Metadata::unpack_unchecked(&[0u8; 31]).map(|m| m.acct_id),
        Err(ClaimError::InvalidAccountData)
    );
    let mut buf = [9u8; 33];
    assert_eq!(
        Metadata::pack(Metadata { acct_id: [1u8; 32] }, &mut buf),
        Err(ClaimError::InvalidAccountData)
    );
    assert_eq!(buf, [9u8; 33]);
}

#[test]
fn record_lengths() {
    assert_eq!(Metadata::LEN, 32);
    assert_eq!(ServerData::LEN, 4);
    assert_eq!(VoterCheck::LEN, 4);
    assert_eq!(Vote::LEN, 1);
}
