use lottery::eventbrite::Profile;
use lottery::lottery::{draw, pick, DrawError};

fn profile(first: &str, last: &str) -> Profile {
    Profile { first_name: first.to_string(), last_name: last.to_string() }
}

#[test]
fn test_draw() {
    let attendees = vec![profile("Francois", "Teychene")];
    let actual = draw(1, &attendees);
    assert!(actual.is_ok());
    assert_eq!(actual.unwrap().as_slice(), vec![profile("Francois", "Teychene")].as_slice());

    let attendees = vec![profile("Francois", "Teychene")];
    let actual = draw(40, &attendees);
    assert!(actual.is_err());
    assert_eq!(actual.unwrap_err(), DrawError::NotEnoughParticipants { asked: 40, existing: 1 });

    let attendees = vec![profile("Francois", "Teychene")];
    let actual = draw(-1, &attendees);
    assert!(actual.is_err());
    assert_eq!(actual.unwrap_err(), DrawError::InvalidDrawRequest { asked: -1 });

    let attendees = vec![profile("Francois", "Teychene")];
    let actual = draw(-50, &attendees);
    assert!(actual.is_err());
    assert_eq!(actual.unwrap_err(), DrawError::InvalidDrawRequest { asked: -50 });

    let attendees = vec![profile("Francois", "Teychene"), profile("Fabien", "Bernard")];
    let actual = draw(0, &attendees);
    assert!(actual.is_ok());
    let vec: Vec<Profile> = Vec::new();
    assert_eq!(actual.unwrap().as_slice(), vec.as_slice());
}

#[test]
fn draw_zero_from_empty_list() {
    let attendees: Vec<Profile> = Vec::new();
    assert_eq!(draw(0, &attendees), Ok(Vec::new()));
}

#[test]
fn draw_negative_is_invalid() {
    let attendees = vec![profile("Ada", "Lovelace"), profile("Alan", "Turing")];
    assert_eq!(draw(-128, &attendees), Err(DrawError::InvalidDrawRequest { asked: -128 }));
}

#[test]
fn draw_more_than_attendees() {
    let attendees = vec![profile("Ada", "Lovelace"), profile("Alan", "Turing")];
    assert_eq!(draw(3, &attendees), Err(DrawError::NotEnoughParticipants { asked: 3, existing: 2 }));
    let empty: Vec<Profile> = Vec::new();
    assert_eq!(draw(1, &empty), Err(DrawError::NotEnoughParticipants { asked: 1, existing: 0 }));
}

#[test]
fn draw_all_attendees_gives_each_once() {
    let attendees = vec![profile("Ada", "Lovelace"), profile("Alan", "Turing"), profile("Grace", "Hopper")];
    let winners = draw(3, &attendees).unwrap();
    assert_eq!(winners.len(), 3);
    for a in &attendees {
        assert_eq!(winners.iter().filter(|w| *w == a).count(), 1);
    }
}

#[test]
fn draw_some_attendees_distinct_and_present() {
    let attendees: Vec<Profile> = (0..20).map(|i| profile(&format!("First{}", i), &format!("Last{}", i))).collect();
    for _ in 0..20 {
        let winners = draw(5, &attendees).unwrap();
        assert_eq!(winners.len(), 5);
        for (i, w) in winners.iter().enumerate() {
            assert!(attendees.contains(w));
            assert!(!winners[i + 1..].contains(w));
        }
    }
}

#[test]
fn draw_largest_request() {
    let attendees: Vec<Profile> = (0..127).map(|i| profile(&format!("F{}", i), "L")).collect();
    assert_eq!(draw(127, &attendees).unwrap().len(), 127);
}

#[test]
fn pick_copies_in_index_order() {
    let attendees = vec![profile("Ada", "Lovelace"), profile("Alan", "Turing"), profile("Grace", "Hopper")];
    let picked = pick(&attendees, &vec![2, 0, 2]);
    assert_eq!(picked, vec![profile("Grace", "Hopper"), profile("Ada", "Lovelace"), profile("Grace", "Hopper")]);
    assert_eq!(pick(&attendees, &Vec::new()), Vec::<Profile>::new());
}
