use vr_marketplace_backend::error::Error;
use vr_marketplace_backend::greet;
use vr_marketplace_backend::identity::Principal;
use vr_marketplace_backend::registry::Registry;

fn admin() -> Principal {
    Principal::new(vec![0xAD])
}

fn u1() -> Principal {
    Principal::new(vec![1])
}

fn u2() -> Principal {
    Principal::new(vec![2])
}

fn fresh() -> Registry {
    Registry::new(admin())
}

#[test]
fn greet_formats_the_name() {
    assert_eq!(
        greet("Alice".to_string()),
        "Hello, Alice! Welcome to the ICP VR Marketplace!"
    );
    assert_eq!(greet(String::new()), "Hello, ! Welcome to the ICP VR Marketplace!");
}

#[test]
fn create_fills_every_field() {
    let mut r = fresh();
    let a = r.create_asset(
        u1(),
        "A".to_string(),
        "d".to_string(),
        100,
        "img".to_string(),
    );
    assert_eq!(a.id, 1);
    assert_eq!(a.name, "A");
    assert_eq!(a.description, "d");
    assert_eq!(a.image, "img");
    assert_eq!(a.price, 100);
    assert!(a.for_sale);
    assert!(a.creator.equals(&u1()));
    assert!(a.owner.equals(&u1()));
}

#[test]
fn created_ids_are_unique_and_increasing() {
    let mut r = fresh();
    let mut last: u64 = 0;
    for k in 0..5u64 {
        let a = r.create_asset(
            u1(),
            format!("asset-{k}"),
            "d".to_string(),
            k,
            String::new(),
        );
        assert!(a.id > last);
        last = a.id;
    }
    let ids: Vec<u64> = r.list_assets().iter().map(|a| a.id).collect();
    assert_eq!(ids, vec![1, 2, 3, 4, 5]);
}

#[test]
fn listing_is_ascending_by_id_and_complete() {
    let mut r = fresh();
    assert!(r.list_assets().is_empty());
    r.create_asset(u1(), "A".to_string(), "d".to_string(), 10, String::new());
    r.create_asset(u2(), "B".to_string(), "d".to_string(), 20, String::new());
    let all = r.list_assets();
    assert_eq!(all.len(), 2);
    assert_eq!(all[0].id, 1);
    assert_eq!(all[1].id, 2);
    assert_eq!(all[0].name, "A");
    assert_eq!(all[1].name, "B");
}

#[test]
fn buy_succeeds_exactly_once() {
    let mut r = fresh();
    r.create_asset(u1(), "A".to_string(), "d".to_string(), 100, String::new());
    let bought = r.buy_asset(&u2(), 1).expect("listed asset must sell");
    assert_eq!(bought.id, 1);
    assert!(bought.owner.equals(&u2()));
    assert!(!bought.for_sale);
    assert!(bought.creator.equals(&u1()));
    assert!(matches!(r.buy_asset(&u2(), 1), Err(Error::NotForSale)));
}

#[test]
fn buy_by_owner_fails_and_mutates_nothing() {
    let mut r = fresh();
    r.create_asset(u1(), "A".to_string(), "d".to_string(), 100, String::new());
    assert!(matches!(r.buy_asset(&u1(), 1), Err(Error::AlreadyOwner)));
    let all = r.list_assets();
    assert_eq!(all.len(), 1);
    assert!(all[0].owner.equals(&u1()));
    assert!(all[0].for_sale);
    assert_eq!(all[0].price, 100);
}

#[test]
fn buy_unknown_id_fails_not_found() {
    let mut r = fresh();
    assert!(matches!(r.buy_asset(&u2(), 1), Err(Error::NotFound)));
    r.create_asset(u1(), "A".to_string(), "d".to_string(), 1, String::new());
    assert!(matches!(r.buy_asset(&u2(), 7), Err(Error::NotFound)));
}

#[test]
fn list_for_sale_by_owner_updates_price_and_flag() {
    let mut r = fresh();
    r.create_asset(u1(), "B".to_string(), "d".to_string(), 50, String::new());
    r.buy_asset(&u2(), 1).expect("sale");
    let relisted = r.list_for_sale(&u2(), 1, 75).expect("owner may list");
    assert!(relisted.for_sale);
    assert_eq!(relisted.price, 75);
    let all = r.list_assets();
    assert!(all[0].for_sale);
    assert_eq!(all[0].price, 75);
}

#[test]
fn list_for_sale_by_non_owner_fails_and_mutates_nothing() {
    let mut r = fresh();
    r.create_asset(u1(), "B".to_string(), "d".to_string(), 50, String::new());
    assert!(matches!(r.list_for_sale(&u2(), 1, 10), Err(Error::NotOwner)));
    let all = r.list_assets();
    assert_eq!(all[0].price, 50);
    assert!(all[0].owner.equals(&u1()));
}

#[test]
fn list_for_sale_unknown_id_fails_not_found() {
    let mut r = fresh();
    assert!(matches!(r.list_for_sale(&u1(), 3, 10), Err(Error::NotFound)));
}

#[test]
fn delete_by_non_owner_fails_and_mutates_nothing() {
    let mut r = fresh();
    r.create_asset(u1(), "A".to_string(), "d".to_string(), 1, String::new());
    assert_eq!(r.delete_asset(&u2(), 1), Err(Error::NotOwner));
    assert_eq!(r.list_assets().len(), 1);
}

#[test]
fn delete_by_owner_removes_the_record() {
    let mut r = fresh();
    r.create_asset(u1(), "A".to_string(), "d".to_string(), 1, String::new());
    r.create_asset(u1(), "B".to_string(), "d".to_string(), 2, String::new());
    assert_eq!(r.delete_asset(&u1(), 1), Ok(()));
    assert!(matches!(r.buy_asset(&u2(), 1), Err(Error::NotFound)));
    assert_eq!(r.delete_asset(&u1(), 1), Err(Error::NotFound));
    let all = r.list_assets();
    assert_eq!(all.len(), 1);
    assert_eq!(all[0].id, 2);
}

#[test]
fn deleted_ids_are_never_reassigned() {
    let mut r = fresh();
    r.create_asset(u1(), "A".to_string(), "d".to_string(), 1, String::new());
    assert_eq!(r.delete_asset(&u1(), 1), Ok(()));
    let a = r.create_asset(u1(), "B".to_string(), "d".to_string(), 2, String::new());
    assert_eq!(a.id, 2);
}

#[test]
fn wipe_by_admin_resets_store_and_counter() {
    let mut r = fresh();
    r.create_asset(u1(), "A".to_string(), "d".to_string(), 1, String::new());
    r.create_asset(u2(), "B".to_string(), "d".to_string(), 2, String::new());
    assert_eq!(r.delete_all_assets(&admin()), Ok(()));
    assert!(r.list_assets().is_empty());
    let a = r.create_asset(u2(), "C".to_string(), "d".to_string(), 3, String::new());
    assert_eq!(a.id, 1);
}

#[test]
fn wipe_by_anyone_else_fails_and_mutates_nothing() {
    let mut r = fresh();
    r.create_asset(u1(), "A".to_string(), "d".to_string(), 1, String::new());
    assert_eq!(r.delete_all_assets(&u1()), Err(Error::NotOwner));
    assert_eq!(r.list_assets().len(), 1);
    assert_eq!(r.next_id(), 2);
}

#[test]
fn whole_scenario() {
    let mut r = fresh();
    let a = r.create_asset(u1(), "A".to_string(), "d".to_string(), 100, String::new());
    assert_eq!(a.id, 1);
    assert!(a.owner.equals(&u1()));
    assert!(a.for_sale);
    let b = r.create_asset(u1(), "B".to_string(), "d".to_string(), 50, String::new());
    assert_eq!(b.id, 2);
    let bought = r.buy_asset(&u2(), 1).expect("for-sale asset sells");
    assert_eq!(bought.id, 1);
    assert!(bought.owner.equals(&u2()));
    assert!(!bought.for_sale);
    assert!(matches!(r.buy_asset(&u2(), 1), Err(Error::NotForSale)));
    let relisted = r.list_for_sale(&u1(), 2, 75).expect("owner may list");
    assert_eq!(relisted.price, 75);
    assert!(matches!(r.list_for_sale(&u2(), 2, 10), Err(Error::NotOwner)));
}

#[test]
fn identity_equality_is_by_bytes() {
    let p = Principal::new(vec![1, 2, 3]);
    let q = Principal::new(vec![1, 2, 3]);
    let s = Principal::new(vec![1, 2]);
    assert!(p.equals(&q));
    assert!(!p.equals(&s));
    assert_eq!(p.as_bytes(), &vec![1, 2, 3]);
    assert!(p.clone().equals(&p));
}
