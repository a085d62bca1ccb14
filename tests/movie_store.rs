use movie_store::movie::{CreateMoviePayload, Movie};
use movie_store::service::{
    create_movie, fetch_status, get_movie, get_movie_by_path, STATUS_CREATED, STATUS_NOT_FOUND,
    STATUS_OK,
};
use movie_store::store::MovieStore;

fn payload(name: &str, year: u16, was_good: bool) -> CreateMoviePayload {
    CreateMoviePayload::new(name.to_string(), year, was_good)
}

fn create(db: &mut MovieStore, p: CreateMoviePayload) -> (u16, Movie) {
    loop {
        if let Ok(created) = create_movie(db, p.clone()) {
            return created;
        }
    }
}

fn id_text(id: u128) -> String {
    uuid::Uuid::from_u128(id).hyphenated().to_string()
}

fn same_record(a: &Movie, b: &Movie) -> bool {
    a.id == b.id && a.name == b.name && a.year == b.year && a.was_good == b.was_good
}

#[test]
fn create_returns_created_with_submitted_fields() {
    let mut db = MovieStore::new();
    let (status, m) = create(&mut db, payload("Inception", 2010, true));
    assert_eq!(status, 201);
    assert_eq!(status, STATUS_CREATED);
    assert_eq!(m.name, "Inception");
    assert_eq!(m.year, 2010);
    assert!(m.was_good);
    assert_eq!(db.len(), 1);
}

#[test]
fn create_keeps_edge_values() {
    let mut db = MovieStore::new();
    let (_, a) = create(&mut db, payload("", 0, false));
    assert_eq!(a.name, "");
    assert_eq!(a.year, 0);
    assert!(!a.was_good);
    let (_, b) = create(&mut db, payload("Ünïcödé", u16::MAX, true));
    assert_eq!(b.name, "Ünïcödé");
    assert_eq!(b.year, 65535);
    assert!(b.was_good);
}

#[test]
fn created_ids_are_random_version_four() {
    let mut db = MovieStore::new();
    let (_, m) = create(&mut db, payload("Alien", 1979, true));
    let u = uuid::Uuid::from_u128(m.id);
    assert_eq!(u.get_version_num(), 4);
    assert_eq!(u.get_variant(), uuid::Variant::RFC4122);
}

#[test]
fn created_ids_are_distinct() {
    let mut db = MovieStore::new();
    let mut ids: Vec<u128> = Vec::new();
    for i in 0..50u16 {
        let (_, m) = create(&mut db, payload("Same", 2000, i % 2 == 0));
        assert!(!ids.contains(&m.id));
        ids.push(m.id);
    }
    assert_eq!(db.len(), 50);
}

#[test]
fn fetch_after_create_returns_the_same_record() {
    let mut db = MovieStore::new();
    let (_, m) = create(&mut db, payload("Inception", 2010, true));
    let r = get_movie(&db, m.id);
    assert_eq!(fetch_status(&r), 200);
    let got = r.unwrap();
    assert!(same_record(&got, &m));
}

#[test]
fn fetch_by_path_text_after_create() {
    let mut db = MovieStore::new();
    let (_, m) = create(&mut db, payload("Inception", 2010, true));
    let text = id_text(m.id);
    let r = get_movie_by_path(&db, &text);
    assert_eq!(fetch_status(&r), STATUS_OK);
    assert!(same_record(&r.unwrap(), &m));
    let simple = uuid::Uuid::from_u128(m.id).simple().to_string();
    assert!(same_record(&get_movie_by_path(&db, &simple).unwrap(), &m));
    let braced = uuid::Uuid::from_u128(m.id).braced().to_string();
    assert!(same_record(&get_movie_by_path(&db, &braced).unwrap(), &m));
}

#[test]
fn fetch_unknown_id_is_not_found() {
    let mut db = MovieStore::new();
    let r = get_movie(&db, 7);
    assert_eq!(fetch_status(&r), 404);
    let (_, m) = create(&mut db, payload("Heat", 1995, true));
    let other = m.id ^ 1;
    let r = get_movie(&db, other);
    assert!(matches!(r, Err(STATUS_NOT_FOUND)));
    let r = get_movie_by_path(&db, "67e55044-10b1-426f-9247-bb680e5fe0c8");
    assert_eq!(fetch_status(&r), 404);
}

#[test]
fn fetch_malformed_segment_is_client_error() {
    let mut db = MovieStore::new();
    create(&mut db, payload("Heat", 1995, true));
    for seg in ["", "abc", "not-a-uuid", "67e55044-10b1-426f-9247-bb680e5fe0cz", "12345"] {
        let r = get_movie_by_path(&db, seg);
        let status = fetch_status(&r);
        assert_eq!(status, 404);
        assert!((400..500).contains(&status));
    }
}

#[test]
fn taken_identifier_is_refused() {
    let mut db = MovieStore::new();
    let first = db.insert_new(42, payload("Up", 2009, true));
    assert_eq!(first.as_ref().map(|m| m.id), Some(42));
    let second = db.insert_new(42, payload("Down", 2010, false));
    assert!(second.is_none());
    assert_eq!(db.len(), 1);
    let kept = db.get(42).unwrap();
    assert_eq!(kept.name, "Up");
    assert_eq!(kept.year, 2009);
}

#[test]
fn store_get_and_contains() {
    let mut db = MovieStore::new();
    assert_eq!(db.len(), 0);
    assert!(!db.contains(1));
    assert!(db.get(1).is_none());
    db.insert_new(1, payload("One", 2001, false));
    assert!(db.contains(1));
    let m = db.get(1).unwrap();
    assert_eq!(m.id, 1);
    let d = m.duplicate();
    assert!(same_record(&d, &m));
}

#[test]
fn many_creates_are_all_fetchable() {
    let mut db = MovieStore::new();
    let mut made: Vec<Movie> = Vec::new();
    for i in 0..20u16 {
        let (_, m) = create(&mut db, payload(&format!("Film {}", i), 1900 + i, i % 3 == 0));
        made.push(m);
    }
    assert_eq!(db.len(), 20);
    for m in &made {
        let got = get_movie_by_path(&db, &id_text(m.id)).unwrap();
        assert!(same_record(&got, m));
    }
}

#[test]
fn example_inception_round_trip() {
    let mut db = MovieStore::new();
    let (status, m) = create(&mut db, payload("Inception", 2010, true));
    assert_eq!(status, 201);
    let r = get_movie_by_path(&db, &id_text(m.id));
    assert_eq!(fetch_status(&r), 200);
    let got = r.unwrap();
    assert_eq!(got.name, "Inception");
    assert_eq!(got.year, 2010);
    assert!(got.was_good);
    assert_eq!(got.id, m.id);
}

#[test]
fn record_from_payload() {
    let m = Movie::from_payload(5, payload("Jaws", 1975, true));
    assert_eq!(m.id, 5);
    assert_eq!(m.name, "Jaws");
    assert_eq!(m.year, 1975);
    assert!(m.was_good);
}

#[test]
fn create_on_empty_store_succeeds_first_time() {
    let mut db = MovieStore::new();
    let r = create_movie(&mut db, payload("Inception", 2010, true));
    let (status, m) = r.unwrap();
    assert_eq!(status, 201);
    assert_eq!(m.name, "Inception");
    assert_eq!(db.len(), 1);
}
