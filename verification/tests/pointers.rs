use io_unity::classes::behaviour::Behaviour;
use io_unity::classes::component::Component;
use io_unity::classes::p_ptr::TypedPointer;
use io_unity::serialized_file::CabFile;
use io_unity::serialized_file::DecodeError;
use io_unity::serialized_file::ObjectRecord;
use io_unity::serialized_file::SerializedFile;
use io_unity::type_tree::Field;
use io_unity::type_tree::FieldValue;
use io_unity::type_tree::TypeTreeObject;
use io_unity::unity_asset_view::UnityAssetViewer;
use io_unity::UnityFS;

fn s(t: &str) -> String {
    t.to_string()
}

fn named(t: &str) -> Vec<Field> {
    vec![Field { path: s("/Base/m_Name"), value: FieldValue::Str(s(t)) }]
}

fn record(path_id: i64, t: &str) -> ObjectRecord {
    ObjectRecord { path_id, fields: Some(named(t)) }
}

fn two_tables() -> UnityAssetViewer {
    let mut viewer = UnityAssetViewer::new();
    viewer.add_unity_fs(
        UnityFS { files: vec![] },
        vec![
            CabFile {
                path: s("CAB-a"),
                externals: vec![],
                objects: vec![record(5, "five of a"), record(0, "zero of a"), ObjectRecord { path_id: 6, fields: None }],
            },
            CabFile {
                path: s("CAB-b"),
                externals: vec![s("CAB-missing"), s("CAB-a")],
                objects: vec![record(5, "five of b")],
            },
        ],
    );
    viewer
}

fn follow<'a>(
    viewer: &'a UnityAssetViewer,
    file_id: Option<i64>,
    path_id: Option<i64>,
    with_viewer: bool,
) -> Result<Option<TypeTreeObject<'a>>, DecodeError> {
    let owner = viewer.get_serialized_file_by_path(&s("CAB-b")).unwrap();
    let pointer = TypedPointer { serialized_file_id: 1, file_id, path_id };
    pointer.get_type_tree_object(owner, if with_viewer { Some(viewer) } else { None })
}

#[test]
fn pointer_is_read_out_of_an_object() {
    let fields = vec![
        Field { path: s("/Base/m_FileID"), value: FieldValue::Int(2) },
        Field { path: s("/Base/m_PathID"), value: FieldValue::Int(-9) },
        Field { path: s("/Base/m_PathID"), value: FieldValue::Int(1) },
    ];
    let pointer = TypedPointer::new(TypeTreeObject { serialized_file_id: 4, path_id: 1, fields: &fields });
    assert_eq!(pointer, TypedPointer { serialized_file_id: 4, file_id: Some(2), path_id: Some(-9) });
    assert_eq!(pointer.get_serialized_file_id(), 4);
    assert_eq!(pointer.get_file_id(), Some(2));
    assert_eq!(pointer.get_path_id(), Some(-9));
}

#[test]
fn pointer_without_target_field_has_no_target() {
    let fields = vec![Field { path: s("/Base/m_FileID"), value: FieldValue::Int(0) }];
    let pointer = TypedPointer::new(TypeTreeObject { serialized_file_id: 0, path_id: 1, fields: &fields });
    assert_eq!(pointer.get_path_id(), None);
    assert_eq!(pointer.get_file_id(), Some(0));
    let empty = vec![];
    let pointer = TypedPointer::new(TypeTreeObject { serialized_file_id: 0, path_id: 1, fields: &empty });
    assert_eq!(pointer, TypedPointer { serialized_file_id: 0, file_id: None, path_id: None });
}

#[test]
fn pointer_without_target_resolves_to_nothing_not_to_object_zero() {
    let viewer = two_tables();
    let owner = viewer.get_serialized_file_by_path(&s("CAB-a")).unwrap();
    assert!(matches!(owner.get_tt_object_by_path_id(0), Ok(Some(_))));
    let null = TypedPointer { serialized_file_id: 0, file_id: Some(0), path_id: None };
    assert_eq!(null.get_type_tree_object(owner, Some(&viewer)), Ok(None));
    assert_eq!(null.get_type_tree_object(owner, None), Ok(None));
    let stray = TypedPointer { serialized_file_id: 0, file_id: Some(2), path_id: None };
    assert_eq!(stray.get_type_tree_object(owner, Some(&viewer)), Ok(None));
}

#[test]
fn pointer_with_target_zero_refers_to_nothing() {
    let viewer = two_tables();
    let owner = viewer.get_serialized_file_by_path(&s("CAB-a")).unwrap();
    let expected = named("zero of a");
    assert_eq!(
        owner.get_tt_object_by_path_id(0),
        Ok(Some(TypeTreeObject { serialized_file_id: 0, path_id: 0, fields: &expected }))
    );
    let zero = TypedPointer { serialized_file_id: 0, file_id: Some(0), path_id: Some(0) };
    assert_eq!(zero.get_path_id(), None);
    assert_eq!(zero.get_type_tree_object(owner, None), Ok(None));
    assert_eq!(zero.get_type_tree_object(owner, Some(&viewer)), Ok(None));
    assert_eq!(viewer.get_container_name_by_pptr(&zero), None);
    let fields = vec![
        Field { path: s("/Base/m_FileID"), value: FieldValue::Int(0) },
        Field { path: s("/Base/m_PathID"), value: FieldValue::Int(0) },
    ];
    let read = TypedPointer::new(TypeTreeObject { serialized_file_id: 0, path_id: 1, fields: &fields });
    assert_eq!(read.get_path_id(), None);
    assert_eq!(read.get_type_tree_object(owner, Some(&viewer)), Ok(None));
}

#[test]
fn pointer_within_its_table() {
    let viewer = two_tables();
    let expected = named("five of b");
    let five = Ok(Some(TypeTreeObject { serialized_file_id: 1, path_id: 5, fields: &expected }));
    assert_eq!(follow(&viewer, Some(0), Some(5), true), five);
    assert_eq!(follow(&viewer, Some(0), Some(5), false), five);
    assert_eq!(follow(&viewer, Some(0), Some(6), true), Ok(None));
}

#[test]
fn pointer_into_another_table() {
    let viewer = two_tables();
    let expected = named("five of a");
    assert_eq!(
        follow(&viewer, Some(2), Some(5), true),
        Ok(Some(TypeTreeObject { serialized_file_id: 0, path_id: 5, fields: &expected }))
    );
    assert_eq!(
        follow(&viewer, Some(2), Some(6), true),
        Err(DecodeError { serialized_file_id: 0, path_id: 6 })
    );
    assert_eq!(follow(&viewer, Some(2), Some(7), true), Ok(None));
}

#[test]
fn pointer_into_another_table_needs_the_index() {
    let viewer = two_tables();
    assert_eq!(follow(&viewer, Some(2), Some(5), false), Ok(None));
    assert_eq!(follow(&viewer, Some(2), Some(6), false), Ok(None));
}

#[test]
fn pointer_into_a_table_that_is_not_there() {
    let viewer = two_tables();
    assert_eq!(follow(&viewer, Some(1), Some(5), true), Ok(None));
    assert_eq!(follow(&viewer, Some(3), Some(5), true), Ok(None));
    assert_eq!(follow(&viewer, Some(-1), Some(5), true), Ok(None));
    assert_eq!(follow(&viewer, Some(i64::MAX), Some(5), true), Ok(None));
    assert_eq!(follow(&viewer, Some(i64::MIN), Some(5), true), Ok(None));
    assert_eq!(follow(&viewer, None, Some(5), true), Ok(None));
}

#[test]
fn name_follows_a_pointer_into_another_table() {
    let mut viewer = UnityAssetViewer::new();
    let entry = (
        s("far.png"),
        vec![Field {
            path: s("/Base/asset"),
            value: FieldValue::Object(vec![
                Field { path: s("/Base/m_FileID"), value: FieldValue::Int(1) },
                Field { path: s("/Base/m_PathID"), value: FieldValue::Int(5) },
            ]),
        }],
    );
    let manifest = ObjectRecord {
        path_id: 1,
        fields: Some(vec![Field {
            path: s("/Base/m_Container/Array"),
            value: FieldValue::StringKeyMap(vec![entry]),
        }]),
    };
    viewer.add_unity_fs(
        UnityFS { files: vec![] },
        vec![CabFile { path: s("near"), externals: vec![s("far")], objects: vec![manifest, record(5, "near five")] }],
    );
    assert_eq!(viewer.get_type_tree_object_by_container_name(&s("far.png")), Ok(None));
    viewer.add_unity_fs(
        UnityFS { files: vec![] },
        vec![CabFile { path: s("far"), externals: vec![], objects: vec![record(5, "far five")] }],
    );
    let expected = named("far five");
    assert_eq!(
        viewer.get_type_tree_object_by_container_name(&s("far.png")),
        Ok(Some(TypeTreeObject { serialized_file_id: 1, path_id: 5, fields: &expected }))
    );
    let owner: &SerializedFile = viewer.get_serialized_file_by_container_name(&s("far.png")).unwrap();
    assert_eq!(owner.serialized_file_id, 0);
    assert_eq!(viewer.get_container_name_by_path_id(&s("near"), 5), Some(&s("far.png")));
}

#[test]
fn behaviour_holds_its_component_and_its_switch() {
    let game_object = TypedPointer { serialized_file_id: 2, file_id: Some(0), path_id: Some(11) };
    let behaviour = Behaviour { component: Component { game_object }, enabled: true };
    assert_eq!(behaviour.component.game_object.get_path_id(), Some(11));
    assert!(behaviour.enabled);
    assert_ne!(behaviour, Behaviour { component: Component { game_object }, enabled: false });
}
