use opencall_mls::error::ErrorKind;
use opencall_mls::mls_client::MLSClient;

#[test]
fn test_client_initialization() {
    let client = MLSClient::new("test_user".to_string());
    assert!(client.is_ok());
}

#[test]
fn test_create_group() {
    let client = MLSClient::new("test_user".to_string()).unwrap();
    let group_id = vec![1, 2, 3, 4];
    let group = client.create_group(group_id);
    assert!(group.is_ok());
}

#[test]
fn test_export_key_package() {
    let client = MLSClient::new("test_user".to_string()).unwrap();
    let key_package = client.export_key_package();
    assert!(key_package.is_ok());
    assert!(!key_package.unwrap().is_empty());
}

#[test]
fn test_group_operations() {
    let client1 = MLSClient::new("user1".to_string()).unwrap();
    let client2 = MLSClient::new("user2".to_string()).unwrap();

    let group_id = vec![5, 6, 7, 8];
    let group1 = client1.create_group(group_id.clone()).unwrap();

    let key_package2 = client2.export_key_package().unwrap();

    let add_result = group1.add_member(&key_package2);
    assert!(add_result.is_ok());
}

#[test]
fn test_message_encryption_decryption() {
    let client = MLSClient::new("test_user".to_string()).unwrap();
    let group_id = vec![9, 10, 11, 12];
    let group = client.create_group(group_id).unwrap();

    let plaintext = b"Hello, MLS!";
    let encrypted = group.encrypt_message(plaintext);
    assert!(encrypted.is_ok());
}

#[test]
fn test_epoch_tracking() {
    let client = MLSClient::new("test_user".to_string()).unwrap();
    let group_id = vec![13, 14, 15, 16];
    let group = client.create_group(group_id).unwrap();

    let epoch = group.get_current_epoch();
    assert!(epoch.is_ok());
    assert_eq!(epoch.unwrap(), 0);
}

#[test]
fn test_member_removal() {
    let client1 = MLSClient::new("user1".to_string()).unwrap();
    let client2 = MLSClient::new("user2".to_string()).unwrap();

    let group_id = vec![17, 18, 19, 20];
    let group1 = client1.create_group(group_id).unwrap();

    let key_package2 = client2.export_key_package().unwrap();
    let _ = group1.add_member(&key_package2).unwrap();

    let remove_result = group1.remove_member("user2");
    assert!(remove_result.is_ok());
}

#[test]
fn test_invalid_member_removal() {
    let client = MLSClient::new("test_user".to_string()).unwrap();
    let group_id = vec![21, 22, 23, 24];
    let group = client.create_group(group_id).unwrap();

    let remove_result = group.remove_member("non_existent_user");
    assert!(remove_result.is_err());
}

#[test]
fn created_session_keeps_its_group_id() {
    let client = MLSClient::new("test_user".to_string()).unwrap();
    let group = client.create_group(vec![1, 2, 3, 4]).unwrap();
    assert_eq!(group.group_id(), vec![1, 2, 3, 4]);
}

#[test]
fn add_member_yields_one_welcome_and_advances_epoch() {
    let user1 = MLSClient::new("user1".to_string()).unwrap();
    let user2 = MLSClient::new("user2".to_string()).unwrap();
    let group = user1.create_group(vec![5, 6, 7, 8]).unwrap();
    assert_eq!(group.get_current_epoch().unwrap(), 0);

    let package = user2.export_key_package().unwrap();
    let commit = group.add_member(&package).unwrap();
    assert_eq!(commit.welcome().len(), 1);
    assert!(!commit.commit().is_empty());
    assert!(!commit.welcome()[0].is_empty());
    assert_eq!(group.get_current_epoch().unwrap(), 1);
}

#[test]
fn joined_member_sees_group_id_and_epoch() {
    let user1 = MLSClient::new("user1".to_string()).unwrap();
    let user2 = MLSClient::new("user2".to_string()).unwrap();
    let group1 = user1.create_group(vec![5, 6, 7, 8]).unwrap();
    let package = user2.export_key_package().unwrap();
    let commit = group1.add_member(&package).unwrap();

    let group2 = user2.join_group(&commit.welcome()[0]).unwrap();
    assert_eq!(group2.group_id(), vec![5, 6, 7, 8]);
    assert_eq!(group2.get_current_epoch().unwrap(), 1);
}

#[test]
fn message_round_trip_between_members() {
    let user1 = MLSClient::new("user1".to_string()).unwrap();
    let user2 = MLSClient::new("user2".to_string()).unwrap();
    let group1 = user1.create_group(vec![40, 41]).unwrap();
    let package = user2.export_key_package().unwrap();
    let commit = group1.add_member(&package).unwrap();
    let group2 = user2.join_group(&commit.welcome()[0]).unwrap();

    let plaintext = b"Hello, MLS!".to_vec();
    let ciphertext = group1.encrypt_message(&plaintext).unwrap();
    assert_eq!(ciphertext.epoch(), 1);
    assert_ne!(ciphertext.data(), plaintext);
    let opened = group2.decrypt_message(&ciphertext.data()).unwrap();
    assert_eq!(opened, plaintext);

    let empty = group2.encrypt_message(&[]).unwrap();
    assert_eq!(group1.decrypt_message(&empty.data()).unwrap(), Vec::<u8>::new());
}

#[test]
fn two_messages_in_a_row_both_open() {
    let user1 = MLSClient::new("user1".to_string()).unwrap();
    let user2 = MLSClient::new("user2".to_string()).unwrap();
    let group1 = user1.create_group(vec![42]).unwrap();
    let package = user2.export_key_package().unwrap();
    let commit = group1.add_member(&package).unwrap();
    let group2 = user2.join_group(&commit.welcome()[0]).unwrap();

    let first = group1.encrypt_message(b"one").unwrap();
    let second = group1.encrypt_message(b"two").unwrap();
    assert_eq!(group2.decrypt_message(&first.data()).unwrap(), b"one".to_vec());
    assert_eq!(group2.decrypt_message(&second.data()).unwrap(), b"two".to_vec());
}

#[test]
fn decrypt_refuses_a_commit_and_keeps_the_epoch() {
    let user1 = MLSClient::new("user1".to_string()).unwrap();
    let user2 = MLSClient::new("user2".to_string()).unwrap();
    let user3 = MLSClient::new("user3".to_string()).unwrap();
    let group1 = user1.create_group(vec![50]).unwrap();
    let commit2 = group1.add_member(&user2.export_key_package().unwrap()).unwrap();
    let group2 = user2.join_group(&commit2.welcome()[0]).unwrap();

    let commit3 = group1.add_member(&user3.export_key_package().unwrap()).unwrap();
    let before = group2.get_current_epoch().unwrap();
    let refused = group2.decrypt_message(&commit3.commit()).unwrap_err();
    assert_eq!(refused.kind(), ErrorKind::InvalidMessageType);
    assert_eq!(
        refused.to_string(),
        "Invalid message type: Received commit, expected application message"
    );
    assert_eq!(group2.get_current_epoch().unwrap(), before);
}

#[test]
fn process_commit_applies_a_received_commit() {
    let user1 = MLSClient::new("user1".to_string()).unwrap();
    let user2 = MLSClient::new("user2".to_string()).unwrap();
    let user3 = MLSClient::new("user3".to_string()).unwrap();
    let group1 = user1.create_group(vec![51]).unwrap();
    let commit2 = group1.add_member(&user2.export_key_package().unwrap()).unwrap();
    let group2 = user2.join_group(&commit2.welcome()[0]).unwrap();

    let commit3 = group1.add_member(&user3.export_key_package().unwrap()).unwrap();
    assert_eq!(group2.get_current_epoch().unwrap(), 1);
    group2.process_commit(&commit3.commit()).unwrap();
    assert_eq!(group2.get_current_epoch().unwrap(), 2);
    assert_eq!(group1.get_current_epoch().unwrap(), 2);

    let ciphertext = group1.encrypt_message(b"after").unwrap();
    assert_eq!(ciphertext.epoch(), 2);
    assert_eq!(group2.decrypt_message(&ciphertext.data()).unwrap(), b"after".to_vec());
}

#[test]
fn remove_member_returns_empty_welcome_list() {
    let user1 = MLSClient::new("user1".to_string()).unwrap();
    let user2 = MLSClient::new("user2".to_string()).unwrap();
    let group = user1.create_group(vec![17, 18, 19, 20]).unwrap();
    group.add_member(&user2.export_key_package().unwrap()).unwrap();
    let commit = group.remove_member("user2").unwrap();
    assert!(commit.welcome().is_empty());
    assert!(!commit.commit().is_empty());
    assert_eq!(group.get_current_epoch().unwrap(), 2);
    let again = group.remove_member("user2").unwrap_err();
    assert_eq!(again.kind(), ErrorKind::MemberNotFound);
}

#[test]
fn removing_an_absent_member_keeps_the_epoch() {
    let client = MLSClient::new("test_user".to_string()).unwrap();
    let group = client.create_group(vec![21, 22, 23, 24]).unwrap();
    let before = group.get_current_epoch().unwrap();
    let refused = group.remove_member("non_existent_user").unwrap_err();
    assert_eq!(refused.kind(), ErrorKind::MemberNotFound);
    assert_eq!(refused.detail(), "non_existent_user");
    assert_eq!(refused.to_string(), "Member not found: non_existent_user");
    assert_eq!(group.get_current_epoch().unwrap(), before);
}

#[test]
fn distinct_groups_do_not_share_state() {
    let user1 = MLSClient::new("user1".to_string()).unwrap();
    let user2 = MLSClient::new("user2".to_string()).unwrap();
    let first = user1.create_group(vec![1]).unwrap();
    let second = user1.create_group(vec![2]).unwrap();
    first.add_member(&user2.export_key_package().unwrap()).unwrap();
    assert_eq!(first.get_current_epoch().unwrap(), 1);
    assert_eq!(second.get_current_epoch().unwrap(), 0);
    assert_eq!(second.remove_member("user2").unwrap_err().kind(), ErrorKind::MemberNotFound);
    assert!(first.remove_member("user2").is_ok());
    assert_eq!(second.get_current_epoch().unwrap(), 0);
}

#[test]
fn welcome_for_someone_else_cannot_be_joined() {
    let user1 = MLSClient::new("user1".to_string()).unwrap();
    let user2 = MLSClient::new("user2".to_string()).unwrap();
    let user3 = MLSClient::new("user3".to_string()).unwrap();
    let group1 = user1.create_group(vec![60]).unwrap();
    let commit = group1.add_member(&user2.export_key_package().unwrap()).unwrap();
    let refused = user3.join_group(&commit.welcome()[0]);
    assert_eq!(refused.err().unwrap().kind(), ErrorKind::OpenMls);
}

#[test]
fn join_refuses_what_is_not_a_welcome() {
    let user1 = MLSClient::new("user1".to_string()).unwrap();
    let user2 = MLSClient::new("user2".to_string()).unwrap();
    let group1 = user1.create_group(vec![61]).unwrap();
    let commit = group1.add_member(&user2.export_key_package().unwrap()).unwrap();

    let wrong_kind = user2.join_group(&commit.commit()).err().unwrap();
    assert_eq!(wrong_kind.kind(), ErrorKind::InvalidMessageType);
    assert_eq!(wrong_kind.to_string(), "Invalid message type: Expected welcome message");

    let garbage = user2.join_group(&[1, 2, 3]).err().unwrap();
    assert_eq!(garbage.kind(), ErrorKind::Codec);
}

#[test]
fn undecodable_buffers_are_codec_errors() {
    let client = MLSClient::new("test_user".to_string()).unwrap();
    let group = client.create_group(vec![62]).unwrap();
    assert_eq!(group.add_member(&[0, 1, 2]).unwrap_err().kind(), ErrorKind::Codec);
    assert_eq!(group.decrypt_message(&[0, 1, 2]).unwrap_err().kind(), ErrorKind::Codec);
    assert_eq!(group.process_commit(&[0, 1, 2]).unwrap_err().kind(), ErrorKind::Codec);
    assert_eq!(group.get_current_epoch().unwrap(), 0);
}

#[test]
fn decrypt_refuses_a_welcome_as_protocol_error() {
    let user1 = MLSClient::new("user1".to_string()).unwrap();
    let user2 = MLSClient::new("user2".to_string()).unwrap();
    let group1 = user1.create_group(vec![63]).unwrap();
    let commit = group1.add_member(&user2.export_key_package().unwrap()).unwrap();
    let refused = group1.decrypt_message(&commit.welcome()[0]).unwrap_err();
    assert_eq!(refused.kind(), ErrorKind::OpenMls);
    assert_eq!(refused.to_string(), "OpenMLS error: Wrong wire format");
    let package = user2.export_key_package().unwrap();
    assert_eq!(group1.process_commit(&package).unwrap_err().kind(), ErrorKind::Codec);
}

#[test]
fn own_message_is_not_handed_back() {
    let client = MLSClient::new("test_user".to_string()).unwrap();
    let group = client.create_group(vec![64]).unwrap();
    let ciphertext = group.encrypt_message(b"to myself").unwrap();
    assert_eq!(ciphertext.epoch(), 0);
    let refused = group.decrypt_message(&ciphertext.data()).unwrap_err();
    assert_eq!(
        refused.to_string(),
        "Invalid message type: Received own message, expected application message"
    );
    assert_eq!(group.get_current_epoch().unwrap(), 0);
}

#[test]
fn process_commit_leaves_the_epoch_on_other_content() {
    let user1 = MLSClient::new("user1".to_string()).unwrap();
    let user2 = MLSClient::new("user2".to_string()).unwrap();
    let group1 = user1.create_group(vec![70]).unwrap();
    let commit = group1.add_member(&user2.export_key_package().unwrap()).unwrap();
    let group2 = user2.join_group(&commit.welcome()[0]).unwrap();

    let ciphertext = group1.encrypt_message(b"not a commit").unwrap();
    assert!(group2.process_commit(&ciphertext.data()).is_ok());
    assert_eq!(group2.get_current_epoch().unwrap(), 1);
}

#[test]
fn identity_text_is_what_removal_matches() {
    let owner = MLSClient::new("h\u{e9}l\u{e8}ne".to_string()).unwrap();
    let guest = MLSClient::new("z\u{fc}rich".to_string()).unwrap();
    let group = owner.create_group(vec![71]).unwrap();
    group.add_member(&guest.export_key_package().unwrap()).unwrap();
    assert_eq!(group.remove_member("zurich").unwrap_err().kind(), ErrorKind::MemberNotFound);
    assert!(group.remove_member("z\u{fc}rich").is_ok());
}
