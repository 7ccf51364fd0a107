use write_ir::args::WriteArgs;
use write_ir::error::DomainError;
use write_ir::filter::{Filter, RecordFilter, ScalarCondition};
use write_ir::model::{value_eq, Field, FieldSelection, Model, PrismaValue, SelectionResult};
use write_ir::write::{
    CreateManyRecords, CreateRecord, DeleteManyRecords, DeleteRecord, NativeUpsert, RawQuery,
    RecordQuery, UpdateManyRecords, UpdateRecord, UpdateRecordWithSelection,
    UpdateRecordWithoutSelection, WriteQuery,
};

fn field(name: &str) -> Field {
    Field { name: name.to_string(), db_name: name.to_string(), is_updated_at: false }
}

fn updated_at_field(name: &str) -> Field {
    Field { name: name.to_string(), db_name: name.to_string(), is_updated_at: true }
}

fn selection(names: &[&str]) -> FieldSelection {
    FieldSelection { fields: names.iter().map(|n| field(n)).collect() }
}

fn user_model() -> Model {
    Model {
        name: "User".to_string(),
        fields: vec![field("id"), field("name"), updated_at_field("updatedAt")],
        primary_identifier: selection(&["id"]),
    }
}

fn empty_record_filter() -> RecordFilter {
    RecordFilter { filter: Filter::Empty, selectors: None }
}

fn id_result(value: i64) -> SelectionResult {
    SelectionResult { pairs: vec![(field("id"), PrismaValue::Int(value))] }
}

fn create_user_node(args: WriteArgs) -> WriteQuery {
    WriteQuery::CreateRecord(CreateRecord {
        name: "createUser".to_string(),
        model: user_model(),
        args,
        selected_fields: selection(&["id"]),
        selection_order: vec!["id".to_string()],
    })
}

fn update_many_node() -> WriteQuery {
    WriteQuery::UpdateManyRecords(UpdateManyRecords {
        model: user_model(),
        record_filter: empty_record_filter(),
        args: WriteArgs::new(),
    })
}

fn delete_node(record_filter: Option<RecordFilter>) -> WriteQuery {
    WriteQuery::DeleteRecord(DeleteRecord { model: user_model(), record_filter })
}

fn scalar_filter(name: &str, v: i64) -> Filter {
    Filter::Scalar(ScalarCondition { field: field(name), value: PrismaValue::Int(v) })
}

#[test]
fn returns_follows_the_projection_table() {
    let pid = selection(&["id"]);
    let other = selection(&["id", "name"]);

    let create = create_user_node(WriteArgs::new());
    assert!(create.returns_selection(&pid));
    assert!(!create.returns_selection(&other));

    let create_many = WriteQuery::CreateManyRecords(CreateManyRecords {
        model: user_model(),
        args: vec![],
        skip_duplicates: false,
    });
    assert!(!create_many.returns_selection(&pid));

    let update_many = update_many_node();
    assert!(update_many.returns_selection(&pid));
    assert!(!update_many.returns_selection(&other));

    let delete = delete_node(None);
    assert!(delete.returns_selection(&pid));

    let delete_many = WriteQuery::DeleteManyRecords(DeleteManyRecords {
        model: user_model(),
        record_filter: empty_record_filter(),
    });
    assert!(!delete_many.returns_selection(&pid));

    let raw = WriteQuery::ExecuteRaw(RawQuery { model: None, inputs: vec![], query_type: None });
    assert!(!raw.returns_selection(&pid));

    let upsert = WriteQuery::Upsert(NativeUpsert::new(
        "upsertUser".to_string(),
        user_model(),
        empty_record_filter(),
        WriteArgs::new(),
        WriteArgs::new(),
        selection(&["id"]),
        vec!["id".to_string()],
    ));
    assert!(upsert.returns_selection(&pid));
    assert!(!upsert.returns_selection(&other));
}

#[test]
fn update_with_explicit_selection_returns_subsets_only() {
    let node = WriteQuery::UpdateRecord(UpdateRecord::WithExplicitSelection(
        UpdateRecordWithSelection {
            name: "updateUser".to_string(),
            model: user_model(),
            record_filter: empty_record_filter(),
            args: WriteArgs::new(),
            selected_fields: selection(&["id", "email"]),
            selection_order: vec!["id".to_string(), "email".to_string()],
        },
    ));
    assert!(node.returns_selection(&selection(&["id"])));
    assert!(node.returns_selection(&selection(&["email", "id"])));
    assert!(!node.returns_selection(&selection(&["id", "name"])));
}

#[test]
fn update_with_implicit_selection_returns_the_primary_identifier() {
    let node = WriteQuery::UpdateRecord(UpdateRecord::WithImplicitSelection(
        UpdateRecordWithoutSelection {
            model: user_model(),
            record_filter: empty_record_filter(),
            args: WriteArgs::new(),
        },
    ));
    assert!(node.returns_selection(&selection(&["id"])));
    assert!(!node.returns_selection(&selection(&["name"])));
}

#[test]
fn inject_result_into_args_adds_the_result_and_refreshes_datetimes() {
    let mut args = WriteArgs::new();
    args.insert("name".to_string(), field("name"), PrismaValue::Text("A".to_string()));
    let mut node = create_user_node(args);

    node.inject_result_into_args(&id_result(42));

    let (injected, updated) = match &node {
        WriteQuery::CreateRecord(c) => (
            c.args.get(&"id".to_string()).map(|e| e.value.clone()),
            c.args.contains_key(&"updatedAt".to_string()),
        ),
        _ => panic!("variant changed"),
    };
    assert_eq!(injected, Some(PrismaValue::Int(42)));
    assert!(value_eq(injected.as_ref().unwrap(), &PrismaValue::Int(42)));
    assert!(updated);
    match &node {
        WriteQuery::CreateRecord(c) => {
            let kept = c.args.get(&"name".to_string()).unwrap();
            assert_eq!(kept.value, PrismaValue::Text("A".to_string()));
        }
        _ => panic!("variant changed"),
    }
    assert!(node.returns_selection(&selection(&["id"])));
}

#[test]
fn inject_does_not_overwrite_an_explicit_updated_at() {
    let mut args = WriteArgs::new();
    args.insert(
        "updatedAt".to_string(),
        updated_at_field("updatedAt"),
        PrismaValue::DateTime(5),
    );
    let mut node = create_user_node(args);

    node.inject_result_into_args(&id_result(1));

    match &node {
        WriteQuery::CreateRecord(c) => {
            let kept = c.args.get(&"updatedAt".to_string()).unwrap();
            assert_eq!(kept.value, PrismaValue::DateTime(5));
        }
        _ => panic!("variant changed"),
    }
}

#[test]
fn inject_is_a_no_op_on_a_delete() {
    let mut node = delete_node(None);
    node.inject_result_into_args(&id_result(7));
    match &node {
        WriteQuery::DeleteRecord(d) => assert!(d.record_filter.is_none()),
        _ => panic!("variant changed"),
    }
}

#[test]
fn inject_result_into_all_reaches_every_batch_element() {
    let mut one = WriteArgs::new();
    one.insert("name".to_string(), field("name"), PrismaValue::Text("A".to_string()));
    let mut two = WriteArgs::new();
    two.insert("name".to_string(), field("name"), PrismaValue::Text("B".to_string()));

    let mut node = CreateManyRecords {
        model: user_model(),
        args: vec![one, two],
        skip_duplicates: true,
    };
    node.inject_result_into_all(&id_result(9));

    assert_eq!(node.args.len(), 2);
    for (i, expected_name) in ["A", "B"].iter().enumerate() {
        let e = node.args[i].get(&"id".to_string()).unwrap();
        assert_eq!(e.value, PrismaValue::Int(9));
        let n = node.args[i].get(&"name".to_string()).unwrap();
        assert_eq!(n.value, PrismaValue::Text(expected_name.to_string()));
    }
    assert!(node.skip_duplicates);
}

#[test]
fn write_args_insert_replaces_an_earlier_binding() {
    let mut args = WriteArgs::new();
    args.insert("id".to_string(), field("id"), PrismaValue::Int(1));
    args.insert("id".to_string(), field("id"), PrismaValue::Int(2));
    assert_eq!(args.len(), 1);
    assert_eq!(args.get(&"id".to_string()).unwrap().value, PrismaValue::Int(2));
}

#[test]
fn set_filter_then_get_filter_reads_the_same_filter() {
    let mut node = update_many_node();
    let f = scalar_filter("id", 3);
    assert!(node.set_filter(scalar_filter("id", 3)).is_ok());
    let got = node.get_filter().unwrap().unwrap();
    assert_eq!(*got, f);
}

#[test]
fn set_filter_constructs_the_record_filter_on_a_bare_delete() {
    let mut node = delete_node(None);
    assert!(node.get_filter().unwrap().is_none());
    assert!(node.set_filter(scalar_filter("id", 8)).is_ok());
    assert_eq!(*node.get_filter().unwrap().unwrap(), scalar_filter("id", 8));
}

#[test]
fn filter_overwrite_leaves_only_the_last_filter() {
    let mut node = WriteQuery::UpdateRecord(UpdateRecord::WithoutSelection(
        UpdateRecordWithoutSelection {
            model: user_model(),
            record_filter: RecordFilter { filter: scalar_filter("id", 1), selectors: None },
            args: WriteArgs::new(),
        },
    ));
    assert!(node.set_filter(scalar_filter("id", 1)).is_ok());
    assert!(node.set_filter(scalar_filter("name", 2)).is_ok());
    assert_eq!(*node.get_filter().unwrap().unwrap(), scalar_filter("name", 2));
}

#[test]
fn get_filter_is_not_applicable_on_a_create() {
    let node = create_user_node(WriteArgs::new());
    assert_eq!(node.get_filter().unwrap_err(), DomainError::NotApplicable);
    let mut node = create_user_node(WriteArgs::new());
    assert_eq!(node.set_filter(Filter::Empty).unwrap_err(), DomainError::NotApplicable);
}

#[test]
fn set_selectors_installs_the_selectors() {
    let mut node = update_many_node();
    let first = id_result(1);
    node.set_selectors(vec![first.clone(), id_result(2)]);
    assert_eq!(first.pairs.len(), 1);
    match &node {
        WriteQuery::UpdateManyRecords(u) => {
            let sel = u.record_filter.selectors.as_ref().unwrap();
            assert_eq!(sel.len(), 2);
            assert_eq!(sel[0].pairs[0].1, PrismaValue::Int(1));
            assert_eq!(sel[1].pairs[0].1, PrismaValue::Int(2));
        }
        _ => panic!("variant changed"),
    }
}

#[test]
fn set_selectors_on_a_bare_delete_constructs_the_record_filter() {
    let mut node = delete_node(None);
    node.set_selectors(vec![id_result(1), id_result(2)]);
    match &node {
        WriteQuery::DeleteRecord(d) => {
            let rf = d.record_filter.as_ref().unwrap();
            assert_eq!(rf.filter, Filter::Empty);
            let sel = rf.selectors.as_ref().unwrap();
            assert_eq!(sel.len(), 2);
            assert_eq!(sel[0].pairs[0].1, PrismaValue::Int(1));
            assert_eq!(sel[1].pairs[0].1, PrismaValue::Int(2));
        }
        _ => panic!("variant changed"),
    }
    assert!(node.get_filter().unwrap().is_some());
}

#[test]
fn set_selectors_is_a_no_op_on_a_delete_many() {
    let mut node = WriteQuery::DeleteManyRecords(DeleteManyRecords {
        model: user_model(),
        record_filter: empty_record_filter(),
    });
    node.set_selectors(vec![id_result(1)]);
    match &node {
        WriteQuery::DeleteManyRecords(d) => assert!(d.record_filter.selectors.is_none()),
        _ => panic!("variant changed"),
    }
}

#[test]
fn model_fails_with_not_applicable_on_raw_queries() {
    let raw = WriteQuery::QueryRaw(RawQuery {
        model: Some(user_model()),
        inputs: vec![("q".to_string(), PrismaValue::Text("select 1".to_string()))],
        query_type: None,
    });
    assert_eq!(raw.model().unwrap_err(), DomainError::NotApplicable);

    let connect = delete_node(None);
    assert_eq!(connect.model().unwrap().name, "User");
}

#[test]
fn native_upsert_fuses_its_pieces() {
    let node = WriteQuery::native_upsert(
        "upsertUser".to_string(),
        user_model(),
        empty_record_filter(),
        WriteArgs::new(),
        WriteArgs::new(),
        RecordQuery {
            selected_fields: selection(&["id", "name"]),
            selection_order: vec!["id".to_string(), "name".to_string()],
        },
    );
    match &node {
        WriteQuery::Upsert(n) => {
            assert_eq!(n.name, "upsertUser");
            assert_eq!(n.model.name, "User");
            assert_eq!(n.selected_fields, selection(&["id", "name"]));
            assert_eq!(n.selection_order, vec!["id".to_string(), "name".to_string()]);
        }
        _ => panic!("wrong variant"),
    }
    assert!(node.returns_selection(&selection(&["id"])));
}

#[test]
fn selection_superset_ignores_order() {
    let wide = selection(&["a", "b", "c"]);
    let narrow = selection(&["c", "a"]);
    assert!(wide.is_superset_of(&narrow));
    assert!(!narrow.is_superset_of(&wide));
    assert!(wide.is_superset_of(&selection(&[])));
}

#[test]
fn display_names_the_kind_the_model_args_and_projection() {
    let mut args = WriteArgs::new();
    args.insert("name".to_string(), field("name"), PrismaValue::Text("A".to_string()));
    let node = create_user_node(args);
    assert_eq!(node.display_string(), "CreateRecord(model: User, args: [name], selection: [id])");
    assert_eq!(node.to_graphviz(), "CreateRecord(model: User, args: [name], selection: [id])");

    let bare = delete_node(None);
    assert_eq!(bare.display_string(), "DeleteRecord(model: User, filter: none)");
    let filtered = delete_node(Some(empty_record_filter()));
    assert_eq!(filtered.display_string(), "DeleteRecord(model: User, filter: Empty)");
}

#[test]
fn display_shows_the_filter_and_the_update_selection_mode() {
    let mut args = WriteArgs::new();
    args.insert("name".to_string(), field("name"), PrismaValue::Text("B".to_string()));
    args.insert("email".to_string(), field("email"), PrismaValue::Null);
    let explicit = WriteQuery::UpdateRecord(UpdateRecord::WithExplicitSelection(
        UpdateRecordWithSelection {
            name: "updateUser".to_string(),
            model: user_model(),
            record_filter: RecordFilter { filter: scalar_filter("id", 1), selectors: None },
            args,
            selected_fields: selection(&["id", "email"]),
            selection_order: vec!["id".to_string(), "email".to_string()],
        },
    ));
    assert_eq!(
        explicit.display_string(),
        "UpdateRecord(model: User, filter: Scalar(id), args: [name, email], selection: [id, email])"
    );

    let bare = WriteQuery::UpdateRecord(UpdateRecord::WithoutSelection(
        UpdateRecordWithoutSelection {
            model: user_model(),
            record_filter: empty_record_filter(),
            args: WriteArgs::new(),
        },
    ));
    assert_eq!(
        bare.display_string(),
        "UpdateRecord(model: User, filter: Empty, args: [], selection: none)"
    );

    let many = update_many_node();
    assert_eq!(
        many.display_string(),
        "UpdateManyRecords(model: User, filter: Empty, args: [])"
    );

    let raw = WriteQuery::QueryRaw(RawQuery {
        model: None,
        inputs: vec![("q".to_string(), PrismaValue::Text("select 1".to_string()))],
        query_type: None,
    });
    assert_eq!(raw.display_string(), "QueryRaw(inputs: [q])");

    let upsert = WriteQuery::Upsert(NativeUpsert::new(
        "upsertUser".to_string(),
        user_model(),
        empty_record_filter(),
        WriteArgs::new(),
        WriteArgs::new(),
        selection(&["id"]),
        vec!["id".to_string()],
    ));
    assert_eq!(
        upsert.display_string(),
        "Upsert(model: User, filter: Empty, create: [], update: [], selection: [id])"
    );
}
