use devite_backend::identity::{
    bytes_equal, contains_identity, copy_bytes, StorablePrincipal, StorableVecU64,
};
use devite_backend::registry::Registry;
use devite_backend::types::{CreateUserRequest, UserProfile};

fn request(name: &str) -> CreateUserRequest {
    CreateUserRequest {
        username: name.to_string(),
        email: format!("{}@uni.example", name),
        institution: "Université de Genève".to_string(),
        research_domains: vec!["physics".to_string(), "数学".to_string(), String::new()],
    }
}

#[test]
fn registered_profile_reads_back_as_written() {
    let mut r = Registry::new();
    let caller = StorablePrincipal(vec![0, 1, 2, 255]);
    let resource = StorablePrincipal(vec![9; 29]);
    let got = r.register_user(&caller, request("zoë"), Some(resource.clone()), 123_456).unwrap();
    let expected = UserProfile {
        principal: caller.clone(),
        username: "zoë".to_string(),
        email: "zoë@uni.example".to_string(),
        institution: "Université de Genève".to_string(),
        research_domains: vec!["physics".to_string(), "数学".to_string(), String::new()],
        personal_canister_id: Some(resource),
        created_at: 123_456,
    };
    assert_eq!(got, expected);
    assert_eq!(r.get_user_profile(&caller), Some(expected.clone()));
    assert_eq!(r.get_my_profile(&caller), Some(expected.clone()));
    assert_eq!(r.get_user_profile(&StorablePrincipal(vec![0, 1, 2])), None);
    assert!(r.is_registered(&caller));
    let other = StorablePrincipal(vec![]);
    assert!(r.register_user(&other, request("bob"), Some(StorablePrincipal(vec![])), 5).is_ok());
    assert_eq!(r.get_user_profile(&caller), Some(expected));
    assert_eq!(r.get_user_profile(&other).unwrap().username, "bob");
}

#[test]
fn registration_grants_the_initial_balance_once() {
    let mut r = Registry::new();
    let a = StorablePrincipal(vec![1]);
    let b = StorablePrincipal(vec![2]);
    assert_eq!(r.get_governance_token_balance(&a), 0);
    assert!(r.register_user(&a, request("a"), Some(b.clone()), 1).is_ok());
    assert_eq!(r.get_governance_token_balance(&a), 1000);
    assert_eq!(r.get_governance_token_balance(&b), 0);
    assert_eq!(r.get_total_governance_tokens(), 1000);
    assert!(r.register_user(&b, request("b"), Some(a.clone()), 1).is_ok());
    assert_eq!(r.get_governance_token_balance(&a), 1000);
    assert_eq!(r.get_governance_token_balance(&b), 1000);
    assert_eq!(r.get_total_governance_tokens(), 2000);
}

#[test]
fn users_are_listed_by_ascending_identity() {
    let mut r = Registry::new();
    let order: Vec<Vec<u8>> = vec![
        vec![],
        vec![0],
        vec![0, 0],
        vec![0, 255],
        vec![1],
        vec![1, 0, 0],
        vec![2],
        vec![200, 1],
        vec![255],
    ];
    let shuffled = [4usize, 8, 0, 6, 2, 7, 1, 5, 3];
    for (n, i) in shuffled.iter().enumerate() {
        let id = StorablePrincipal(order[*i].clone());
        assert!(r.register_user(&id, request("u"), Some(id.clone()), n as u64).is_ok());
    }
    let listed: Vec<Vec<u8>> = r.list_all_users().into_iter().map(|p| p.principal.0).collect();
    assert_eq!(listed, order);
    assert_eq!(r.get_platform_stats().total_users, 9);
    assert_eq!(r.get_total_governance_tokens(), 9000);
}

#[test]
fn identities_compare_by_their_bytes() {
    let a = StorablePrincipal(vec![1, 2, 3]);
    assert!(a.same(&StorablePrincipal(vec![1, 2, 3])));
    assert!(!a.same(&StorablePrincipal(vec![1, 2])));
    assert!(!a.same(&StorablePrincipal(vec![1, 2, 4])));
    assert!(!a.same(&StorablePrincipal(vec![])));
    assert_eq!(a.copy(), a);
    assert!(bytes_equal(&vec![], &vec![]));
    assert!(!bytes_equal(&vec![0], &vec![]));
    assert_eq!(copy_bytes(&vec![5, 6, 7]), vec![5, 6, 7]);
    let list = vec![StorablePrincipal(vec![1]), a.clone()];
    assert!(contains_identity(&list, &a));
    assert!(!contains_identity(&list, &StorablePrincipal(vec![2])));
    assert!(!contains_identity(&vec![], &a));
}

#[test]
fn identities_and_id_lists_convert_from_and_to_their_contents() {
    let p = StorablePrincipal::from(vec![4, 5]);
    assert_eq!(p.0, vec![4, 5]);
    let bytes: Vec<u8> = Vec::from(p);
    assert_eq!(bytes, vec![4, 5]);
    let list = StorableVecU64::from(vec![3, 1, 2]);
    assert_eq!(list.0, vec![3, 1, 2]);
    let ids: Vec<u64> = Vec::from(list);
    assert_eq!(ids, vec![3, 1, 2]);
}

#[test]
fn many_users_are_counted_and_summed() {
    let mut r = Registry::new();
    for n in 0..400u32 {
        let id = StorablePrincipal(n.to_be_bytes().to_vec());
        assert!(r.register_user(&id, request("u"), Some(id.clone()), n as u64).is_ok());
    }
    assert_eq!(r.get_platform_stats().total_users, 400);
    assert_eq!(r.get_total_governance_tokens(), 400_000);
    let listed = r.list_all_users();
    assert_eq!(listed.len(), 400);
    for (n, p) in listed.iter().enumerate() {
        assert_eq!(p.principal.0, (n as u32).to_be_bytes().to_vec());
        assert_eq!(p.created_at, n as u64);
    }
}
