use sqlx_crud_schema::{bind_values, build_binding_plan, FieldDescriptor, ModelDescriptor};

fn account_model(external_id: Option<&str>) -> ModelDescriptor {
    let fields = vec![
        FieldDescriptor::new("id", "i64", true),
        FieldDescriptor::new("email", "String", false),
        FieldDescriptor::new("active", "bool", false),
    ];
    ModelDescriptor::new("UserAccount", fields, None, external_id).unwrap()
}

fn part_model() -> ModelDescriptor {
    let fields = vec![
        FieldDescriptor::new("name", "String", false),
        FieldDescriptor::new("code", "u32", true),
        FieldDescriptor::new("rank", "u8", false),
        FieldDescriptor::new("note", "String", false),
    ];
    ModelDescriptor::new("Part", fields, None, None).unwrap()
}

#[test]
fn insert_binds_every_field_in_declaration_order() {
    assert_eq!(account_model(None).insert_bind_order(), vec![0, 1, 2]);
    assert_eq!(account_model(Some("true")).insert_bind_order(), vec![0, 1, 2]);
    assert_eq!(part_model().insert_bind_order(), vec![0, 1, 2, 3]);
}

#[test]
fn update_binds_the_id_last() {
    assert_eq!(account_model(None).update_bind_order(), vec![1, 2, 0]);
    assert_eq!(account_model(Some("true")).update_bind_order(), vec![1, 2, 0]);
    assert_eq!(part_model().update_bind_order(), vec![0, 2, 3, 1]);
    let order = part_model().update_bind_order();
    assert_eq!(order.last(), Some(&1));
    assert!(!order[..order.len() - 1].contains(&1));
}

#[test]
fn by_id_statements_bind_the_id_alone() {
    assert_eq!(account_model(None).by_id_bind_order(), vec![0]);
    assert_eq!(part_model().by_id_bind_order(), vec![1]);
}

#[test]
fn all_and_other_positions() {
    assert_eq!(part_model().all_positions(), vec![0, 1, 2, 3]);
    assert_eq!(part_model().other_positions(), vec![0, 2, 3]);
    assert_eq!(account_model(None).other_positions(), vec![1, 2]);
}

#[test]
fn binding_plan_holds_the_four_orders() {
    let plan = build_binding_plan(&part_model());
    assert_eq!(plan.insert, vec![0, 1, 2, 3]);
    assert_eq!(plan.update_by_id, vec![0, 2, 3, 1]);
    assert_eq!(plan.select_by_id, vec![1]);
    assert_eq!(plan.delete_by_id, vec![1]);
}

#[test]
fn record_with_one_field_binds_it_everywhere() {
    let fields = vec![FieldDescriptor::new("label", "String", false)];
    let m = ModelDescriptor::new("Tag", fields, None, None).unwrap();
    let plan = build_binding_plan(&m);
    assert_eq!(plan.insert, vec![0]);
    assert_eq!(plan.update_by_id, vec![0]);
    assert_eq!(plan.select_by_id, vec![0]);
    assert_eq!(plan.delete_by_id, vec![0]);
}

#[test]
fn update_binds_match_update_placeholders() {
    for m in [account_model(None), account_model(Some("true")), part_model()] {
        let marks = m.update_by_id_sql().matches('?').count();
        assert_eq!(m.update_bind_order().len(), marks);
        assert_eq!(m.update_bind_order().len(), m.update_set_items().len() + 1);
    }
}

#[test]
fn insert_binds_match_insert_placeholders_only_with_external_id() {
    let on = account_model(Some("true"));
    assert_eq!(on.insert_bind_order().len(), on.insert_placeholder_count());
    assert_eq!(on.insert_bind_order(), on.insert_positions());
    let off = account_model(None);
    assert_eq!(off.insert_bind_order().len(), off.insert_placeholder_count() + 1);
}

#[test]
fn by_id_binds_match_by_id_placeholders() {
    let m = part_model();
    assert_eq!(m.select_by_id_sql().matches('?').count(), m.by_id_bind_order().len());
    assert_eq!(m.delete_by_id_sql().matches('?').count(), m.by_id_bind_order().len());
}

#[test]
fn bind_values_takes_the_values_in_binding_order() {
    let record = vec!["bolt".to_string(), "17".to_string(), "3".to_string(), "steel".to_string()];
    let m = part_model();
    let for_update = bind_values(&m.update_bind_order(), &record);
    assert_eq!(for_update, vec!["bolt", "3", "steel", "17"]);
    let for_insert = bind_values(&m.insert_bind_order(), &record);
    assert_eq!(for_insert, vec!["bolt", "17", "3", "steel"]);
    let for_delete = bind_values(&m.by_id_bind_order(), &record);
    assert_eq!(for_delete, vec!["17"]);
}

#[test]
fn bind_values_of_an_empty_order() {
    let record = vec![1u8, 2, 3];
    let none: Vec<usize> = Vec::new();
    assert!(bind_values(&none, &record).is_empty());
}

#[test]
fn bind_values_may_repeat_a_field() {
    let record = vec![10u32, 20, 30];
    let got = bind_values(&vec![2, 2, 0], &record);
    assert_eq!(got, vec![&30, &30, &10]);
}

#[test]
fn statements_hold_one_placeholder_for_each_bound_value() {
    for m in [account_model(Some("true")), part_model()] {
        assert_eq!(m.select_sql().matches('?').count(), 0);
        assert_eq!(m.select_by_id_sql().matches('?').count(), 1);
        assert_eq!(m.delete_by_id_sql().matches('?').count(), 1);
        assert_eq!(m.update_by_id_sql().matches('?').count(), m.update_bind_order().len());
        assert_eq!(m.insert_sql().matches('?').count(), m.insert_positions().len());
        assert_eq!(m.insert_sql().matches('?').count(), m.insert_placeholder_count());
    }
    let external = account_model(Some("true"));
    assert_eq!(external.insert_sql().matches('?').count(), external.insert_bind_order().len());
    let internal = part_model();
    assert_eq!(internal.insert_sql().matches('?').count() + 1, internal.insert_bind_order().len());
}
