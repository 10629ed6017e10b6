use commit_reveal::hand::Hand;
use commit_reveal::message::Message;

const ALL: [Hand; 3] = [Hand::Rock, Hand::Paper, Hand::Scissor];

fn salts() -> Vec<[u8; 16]> {
    vec![[0u8; 16], [0xffu8; 16], [7, 1, 2, 3, 4, 5, 6, 7, 8, 9, 10, 11, 12, 13, 14, 15]]
}

#[test]
fn commitment_verifies_for_its_own_reveal() {
    for c in ALL {
        for s in salts() {
            let k = Message::commit_with_salt(c, s);
            assert!(Message::verify(c, s, k));
        }
    }
}

#[test]
fn commitment_rejects_another_hand() {
    for c1 in ALL {
        for c2 in ALL {
            if c1 == c2 {
                continue;
            }
            for s in salts() {
                assert!(!Message::verify(c2, s, Message::commit_with_salt(c1, s)));
            }
        }
    }
}

#[test]
fn commitment_rejects_another_salt() {
    let k = Message::commit_with_salt(Hand::Rock, [0u8; 16]);
    let mut s = [0u8; 16];
    s[15] = 1;
    assert!(!Message::verify(Hand::Rock, s, k));
}

#[test]
fn commitment_is_deterministic_and_not_the_input() {
    let s = [3u8; 16];
    let k = Message::commit_with_salt(Hand::Scissor, s);
    assert_eq!(k, Message::commit_with_salt(Hand::Scissor, s));
    assert_ne!(&k[..17], &[&[2u8][..], &s[..]].concat()[..]);
    assert_ne!(k, [0u8; 32]);
}

#[test]
fn commit_uses_fresh_salts() {
    let mut seen = Vec::new();
    for _ in 0..32 {
        let (k, s) = Message::commit(Hand::Paper);
        assert!(Message::verify(Hand::Paper, s, k));
        assert!(!seen.contains(&(k, s)));
        for (k2, s2) in &seen {
            assert_ne!(&s, s2);
            assert_ne!(&k, k2);
        }
        seen.push((k, s));
    }
}

#[test]
fn commitment_matches_known_digests() {
    let paper_zero: [u8; 32] = [
        0xf0, 0xd2, 0x78, 0xea, 0xcb, 0xee, 0x4e, 0xea, 0xc1, 0xf3, 0xcc, 0x75, 0xd5, 0xef, 0xda, 0x8d,
        0xc5, 0xdf, 0xf1, 0x29, 0xbe, 0xd3, 0xda, 0x9a, 0xd3, 0xb0, 0xe1, 0x1f, 0xc6, 0x4a, 0xe9, 0x10,
    ];
    assert_eq!(Message::commit_with_salt(Hand::Paper, [0u8; 16]), paper_zero);
    let salt: [u8; 16] = [0, 1, 2, 3, 4, 5, 6, 7, 8, 9, 10, 11, 12, 13, 14, 15];
    let scissor_counting: [u8; 32] = [
        0x1c, 0x27, 0xa9, 0xb7, 0x99, 0x46, 0x88, 0x02, 0xc4, 0xec, 0x89, 0xab, 0x2d, 0x24, 0xd1, 0xf2,
        0xce, 0xa0, 0x56, 0x27, 0x06, 0xec, 0xa1, 0x2d, 0x0a, 0x18, 0xfe, 0x09, 0x96, 0x35, 0x44, 0xc7,
    ];
    assert_eq!(Message::commit_with_salt(Hand::Scissor, salt), scissor_counting);
    assert!(Message::verify(Hand::Scissor, salt, scissor_counting));
    assert!(!Message::verify(Hand::Paper, salt, scissor_counting));
}
