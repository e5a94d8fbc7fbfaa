#[test]
fn db_get_current_table_name_test() {}
