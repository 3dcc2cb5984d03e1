use fable_data::def::visit::normalize_member_name;

#[test]
fn member_names_meet() {
    assert_eq!(normalize_member_name("BankIndex"), "bankindex");
    assert_eq!(normalize_member_name("bank_index"), "bankindex");
    assert_eq!(normalize_member_name("__X_1_y__"), "x1y");
    assert_eq!(normalize_member_name(""), "");
}

#[test]
fn member_names_beyond_ascii() {
    assert_eq!(normalize_member_name("Ärger_Öl"), "ärgeröl");
    assert_eq!(normalize_member_name("İ"), "i\u{307}");
}
