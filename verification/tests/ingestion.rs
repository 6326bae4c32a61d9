use io_unity::classes::p_ptr::TypedPointer;
use io_unity::serialized_file::CabFile;
use io_unity::serialized_file::ObjectRecord;
use io_unity::type_tree::Field;
use io_unity::type_tree::FieldValue;
use io_unity::type_tree::TypeTreeObject;
use io_unity::unity_asset_view::UnityAssetViewer;
use io_unity::UnityFS;

fn name(text: &str) -> String {
    text.to_string()
}

fn pointer(file_id: i64, path_id: i64) -> Vec<Field> {
    vec![
        Field { path: name("/Base/m_FileID"), value: FieldValue::Int(file_id) },
        Field { path: name("/Base/m_PathID"), value: FieldValue::Int(path_id) },
    ]
}

fn entry(container_name: &str, file_id: i64, path_id: i64) -> (String, Vec<Field>) {
    (
        name(container_name),
        vec![Field { path: name("/Base/asset"), value: FieldValue::Object(pointer(file_id, path_id)) }],
    )
}

fn manifest(entries: Vec<(String, Vec<Field>)>) -> ObjectRecord {
    ObjectRecord {
        path_id: 1,
        fields: Some(vec![Field {
            path: name("/Base/m_Container/Array"),
            value: FieldValue::StringKeyMap(entries),
        }]),
    }
}

fn label(text: &str) -> Vec<Field> {
    vec![Field { path: name("/Base/m_Name"), value: FieldValue::Str(name(text)) }]
}

fn object(path_id: i64, text: &str) -> ObjectRecord {
    ObjectRecord { path_id, fields: Some(label(text)) }
}

fn cab(path: &str, objects: Vec<ObjectRecord>) -> CabFile {
    CabFile { path: name(path), externals: vec![], objects }
}

fn archive(names: &[&str]) -> UnityFS {
    UnityFS { files: names.iter().map(|n| (name(n), n.as_bytes().to_vec())).collect() }
}

fn table_id(viewer: &UnityAssetViewer, path: &str) -> Option<i64> {
    viewer.get_serialized_file_by_path(&name(path)).map(|table| table.serialized_file_id)
}

#[test]
fn identifiers_go_up_across_calls() {
    let mut viewer = UnityAssetViewer::new();
    let first = viewer.add_unity_fs(
        archive(&["a0", "a1"]),
        vec![cab("a0", vec![]), cab("a1", vec![])],
    );
    let second = viewer.add_unity_fs(archive(&["b0"]), vec![cab("b0", vec![])]);
    let third = viewer.add_unity_fs(archive(&[]), vec![]);
    let fourth = viewer.add_unity_fs(
        archive(&["d0", "d1", "d2"]),
        vec![cab("d0", vec![]), cab("d1", vec![]), cab("d2", vec![])],
    );
    assert_eq!((first, second, third, fourth), (0, 1, 2, 3));
    assert_eq!(table_id(&viewer, "a0"), Some(0));
    assert_eq!(table_id(&viewer, "a1"), Some(1));
    assert_eq!(table_id(&viewer, "b0"), Some(2));
    assert_eq!(table_id(&viewer, "d0"), Some(3));
    assert_eq!(table_id(&viewer, "d1"), Some(4));
    assert_eq!(table_id(&viewer, "d2"), Some(5));
}

#[test]
fn each_table_belongs_to_its_archive() {
    let mut viewer = UnityAssetViewer::new();
    viewer.add_unity_fs(archive(&["a0", "a1"]), vec![cab("a0", vec![]), cab("a1", vec![])]);
    viewer.add_unity_fs(archive(&["b0"]), vec![cab("b0", vec![])]);
    assert_eq!(viewer.get_unity_fs_by_cab_path(&name("a0")), Some(&archive(&["a0", "a1"])));
    assert_eq!(viewer.get_unity_fs_by_cab_path(&name("a1")), Some(&archive(&["a0", "a1"])));
    assert_eq!(viewer.get_unity_fs_by_cab_path(&name("b0")), Some(&archive(&["b0"])));
    assert_eq!(viewer.get_unity_fs_by_cab_path(&name("c0")), None);
}

#[test]
fn later_virtual_file_takes_over_a_name() {
    let mut viewer = UnityAssetViewer::new();
    viewer.add_unity_fs(archive(&["shared"]), vec![cab("shared", vec![object(5, "old")])]);
    viewer.add_unity_fs(archive(&["shared", "x"]), vec![cab("shared", vec![object(5, "new")])]);
    let table = viewer.get_serialized_file_by_path(&name("shared")).unwrap();
    assert_eq!(table.serialized_file_id, 1);
    assert_eq!(table.objects, vec![object(5, "new")]);
    assert_eq!(viewer.get_unity_fs_by_cab_path(&name("shared")), Some(&archive(&["shared", "x"])));
}

#[test]
fn scan_cut_short_keeps_the_tables_without_the_archive() {
    let mut viewer = UnityAssetViewer::new();
    let unity_fs_id = viewer.add_cab_files(vec![
        cab("cut0", vec![manifest(vec![entry("kept.png", 0, 9)]), object(9, "nine")]),
        cab("cut1", vec![]),
    ]);
    assert_eq!(unity_fs_id, 0);
    assert_eq!(table_id(&viewer, "cut0"), Some(0));
    assert_eq!(table_id(&viewer, "cut1"), Some(1));
    assert_eq!(viewer.get_unity_fs_by_cab_path(&name("cut0")), None);
    let expected = label("nine");
    assert_eq!(
        viewer.get_type_tree_object_by_container_name(&name("kept.png")),
        Ok(Some(TypeTreeObject { serialized_file_id: 0, path_id: 9, fields: &expected }))
    );
    let next = viewer.add_unity_fs(archive(&["next0"]), vec![cab("next0", vec![])]);
    assert_eq!(next, 1);
    assert_eq!(table_id(&viewer, "next0"), Some(2));
    assert_eq!(viewer.get_unity_fs_by_cab_path(&name("next0")), Some(&archive(&["next0"])));
}

#[test]
fn room_for_more() {
    let mut viewer = UnityAssetViewer::new();
    assert!(viewer.has_room_for(0));
    assert!(viewer.has_room_for(1_000_000));
    viewer.add_unity_fs(archive(&["a"]), vec![cab("a", vec![])]);
    assert!(viewer.has_room_for(usize::MAX / 4));
}

#[test]
fn no_room_for_more_files_than_identifiers() {
    let mut viewer = UnityAssetViewer::new();
    viewer.add_unity_fs(archive(&["a"]), vec![cab("a", vec![])]);
    if usize::MAX as u128 >= i64::MAX as u128 {
        assert!(viewer.has_room_for((i64::MAX - 1) as usize));
        assert!(!viewer.has_room_for(i64::MAX as usize));
    }
}

#[test]
fn names_of_objects_come_from_the_manifest() {
    let mut viewer = UnityAssetViewer::new();
    viewer.add_unity_fs(
        archive(&["c"]),
        vec![cab(
            "c",
            vec![
                manifest(vec![entry("a.png", 0, 10), entry("b.png", 0, 11)]),
                object(10, "ten"),
                object(11, "eleven"),
            ],
        )],
    );
    assert_eq!(viewer.get_container_name_by_path_id(&name("c"), 10), Some(&name("a.png")));
    assert_eq!(viewer.get_container_name_by_path_id(&name("c"), 11), Some(&name("b.png")));
    assert_eq!(viewer.get_container_name_by_path_id(&name("c"), 12), None);
    assert_eq!(viewer.get_container_name_by_path_id(&name("d"), 10), None);
}

#[test]
fn first_name_of_a_target_stays() {
    let mut viewer = UnityAssetViewer::new();
    viewer.add_unity_fs(
        archive(&["c"]),
        vec![cab(
            "c",
            vec![
                manifest(vec![
                    entry("first.png", 0, 10),
                    entry("other.png", 0, 11),
                    entry("second.png", 0, 10),
                ]),
                object(10, "ten"),
            ],
        )],
    );
    assert_eq!(viewer.get_container_name_by_path_id(&name("c"), 10), Some(&name("first.png")));
    let pointer = TypedPointer { serialized_file_id: 0, file_id: Some(0), path_id: Some(10) };
    assert_eq!(viewer.get_container_name_by_pptr(&pointer), Some(&name("first.png")));
    let expected = label("ten");
    let ten = Ok(Some(TypeTreeObject { serialized_file_id: 0, path_id: 10, fields: &expected }));
    assert_eq!(viewer.get_type_tree_object_by_container_name(&name("first.png")), ten);
    assert_eq!(viewer.get_type_tree_object_by_container_name(&name("second.png")), ten);
}

#[test]
fn names_are_kept_per_table() {
    let mut viewer = UnityAssetViewer::new();
    viewer.add_unity_fs(
        archive(&["a"]),
        vec![cab("a", vec![manifest(vec![entry("in_a.png", 0, 10)])])],
    );
    viewer.add_unity_fs(
        archive(&["b"]),
        vec![cab("b", vec![manifest(vec![entry("in_b.png", 0, 10)])])],
    );
    assert_eq!(viewer.get_container_name_by_path_id(&name("a"), 10), Some(&name("in_a.png")));
    assert_eq!(viewer.get_container_name_by_path_id(&name("b"), 10), Some(&name("in_b.png")));
    let in_a = TypedPointer { serialized_file_id: 0, file_id: Some(3), path_id: Some(10) };
    let in_b = TypedPointer { serialized_file_id: 1, file_id: None, path_id: Some(10) };
    let nowhere = TypedPointer { serialized_file_id: 2, file_id: Some(0), path_id: Some(10) };
    let null = TypedPointer { serialized_file_id: 0, file_id: Some(0), path_id: None };
    assert_eq!(viewer.get_container_name_by_pptr(&in_a), Some(&name("in_a.png")));
    assert_eq!(viewer.get_container_name_by_pptr(&in_b), Some(&name("in_b.png")));
    assert_eq!(viewer.get_container_name_by_pptr(&nowhere), None);
    assert_eq!(viewer.get_container_name_by_pptr(&null), None);
}

#[test]
fn first_archive_to_register_a_name_wins() {
    let mut viewer = UnityAssetViewer::new();
    viewer.add_unity_fs(
        archive(&["a"]),
        vec![cab("a", vec![manifest(vec![entry("dup", 0, 20)]), object(20, "from a")])],
    );
    viewer.add_unity_fs(
        archive(&["b"]),
        vec![cab("b", vec![manifest(vec![entry("dup", 0, 30)]), object(30, "from b")])],
    );
    let expected = label("from a");
    assert_eq!(
        viewer.get_type_tree_object_by_container_name(&name("dup")),
        Ok(Some(TypeTreeObject { serialized_file_id: 0, path_id: 20, fields: &expected }))
    );
    let table = viewer.get_serialized_file_by_container_name(&name("dup")).unwrap();
    assert_eq!(table.serialized_file_id, 0);
}

#[test]
fn first_pointer_of_a_name_within_one_manifest_wins() {
    let mut viewer = UnityAssetViewer::new();
    viewer.add_unity_fs(
        archive(&["a"]),
        vec![cab(
            "a",
            vec![
                manifest(vec![entry("dup", 0, 30), entry("dup", 0, 20)]),
                object(20, "twenty"),
                object(30, "thirty"),
            ],
        )],
    );
    let expected = label("thirty");
    assert_eq!(
        viewer.get_type_tree_object_by_container_name(&name("dup")),
        Ok(Some(TypeTreeObject { serialized_file_id: 0, path_id: 30, fields: &expected }))
    );
}

#[test]
fn looking_up_twice_gives_the_same() {
    let mut viewer = UnityAssetViewer::new();
    viewer.add_unity_fs(archive(&["a", "b"]), vec![cab("a", vec![]), cab("b", vec![object(2, "two")])]);
    let first = viewer.get_serialized_file_by_path(&name("b")).map(|t| t.serialized_file_id);
    let second = viewer.get_serialized_file_by_path(&name("b")).map(|t| t.serialized_file_id);
    assert_eq!(first, Some(1));
    assert_eq!(first, second);
    assert_eq!(
        viewer.get_serialized_file_by_path(&name("b")),
        viewer.get_serialized_file_by_path(&name("b"))
    );
    assert_eq!(
        viewer.get_serialized_file_by_path(&name("zz")),
        viewer.get_serialized_file_by_path(&name("zz"))
    );
}

#[test]
fn name_resolves_to_what_its_table_gives() {
    let mut viewer = UnityAssetViewer::new();
    viewer.add_unity_fs(
        archive(&["t"]),
        vec![cab(
            "t",
            vec![manifest(vec![entry("N", 0, 77), entry("gone", 0, 78)]), object(77, "target")],
        )],
    );
    let table = viewer.get_serialized_file_by_path(&name("t")).unwrap();
    let direct = table.get_tt_object_by_path_id(77);
    assert!(matches!(direct, Ok(Some(_))));
    assert_eq!(viewer.get_type_tree_object_by_container_name(&name("N")), direct);
    assert_eq!(table.get_tt_object_by_path_id(78), Ok(None));
    assert_eq!(viewer.get_type_tree_object_by_container_name(&name("gone")), Ok(None));
    assert_eq!(viewer.get_type_tree_object_by_container_name(&name("unknown")), Ok(None));
}

#[test]
fn archive_of_a_pointer_and_of_an_object() {
    let mut viewer = UnityAssetViewer::new();
    viewer.add_unity_fs(archive(&["a"]), vec![cab("a", vec![object(4, "four")])]);
    viewer.add_unity_fs(archive(&["b"]), vec![cab("b", vec![])]);
    let in_b = TypedPointer { serialized_file_id: 1, file_id: Some(0), path_id: None };
    let nowhere = TypedPointer { serialized_file_id: 2, file_id: Some(0), path_id: Some(1) };
    assert_eq!(viewer.get_unity_fs_by_pptr(&in_b), Some(&archive(&["b"])));
    assert_eq!(viewer.get_unity_fs_by_pptr(&nowhere), None);
    let table = viewer.get_serialized_file_by_path(&name("a")).unwrap();
    let four = table.get_tt_object_by_path_id(4).unwrap().unwrap();
    assert_eq!(viewer.get_unity_fs_by_type_tree_object(&four), Some(&archive(&["a"])));
    let fields = vec![];
    let stray = TypeTreeObject { serialized_file_id: -1, path_id: 4, fields: &fields };
    assert_eq!(viewer.get_unity_fs_by_type_tree_object(&stray), None);
}

#[test]
fn maps_of_the_index_can_be_read() {
    let mut viewer = UnityAssetViewer::new();
    assert!(viewer.cab_maps().is_empty());
    assert!(viewer.serialized_file_map().is_empty());
    assert!(viewer.container_maps().is_empty());
    viewer.add_unity_fs(
        archive(&["a", "b"]),
        vec![
            cab("a", vec![manifest(vec![entry("x.png", 0, 8), entry("y.png", 0, 9)])]),
            cab("b", vec![manifest(vec![entry("x.png", 2, 7)])]),
        ],
    );
    assert_eq!(viewer.cab_maps().len(), 2);
    assert_eq!(viewer.cab_maps().get("b"), Some(&1));
    assert_eq!(viewer.serialized_file_map().len(), 2);
    assert_eq!(viewer.serialized_file_map().keys().copied().collect::<Vec<i64>>(), vec![0, 1]);
    assert_eq!(viewer.container_maps().len(), 2);
    assert_eq!(
        viewer.container_maps().get("x.png"),
        Some(&vec![
            (0, TypedPointer { serialized_file_id: 0, file_id: Some(0), path_id: Some(8) }),
            (1, TypedPointer { serialized_file_id: 1, file_id: Some(2), path_id: Some(7) }),
        ])
    );
    assert_eq!(
        viewer.container_maps().get("y.png"),
        Some(&vec![(0, TypedPointer { serialized_file_id: 0, file_id: Some(0), path_id: Some(9) })])
    );
    assert_eq!(viewer.container_maps().get("z.png"), None);
}
