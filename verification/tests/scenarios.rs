use io_unity::serialized_file::CabFile;
use io_unity::serialized_file::ObjectRecord;
use io_unity::type_tree::Field;
use io_unity::type_tree::FieldValue;
use io_unity::type_tree::TypeTreeObject;
use io_unity::unity_asset_view::UnityAssetViewer;
use io_unity::UnityFS;

fn pointer(file_id: i64, path_id: i64) -> Vec<Field> {
    vec![
        Field { path: "/Base/m_FileID".to_string(), value: FieldValue::Int(file_id) },
        Field { path: "/Base/m_PathID".to_string(), value: FieldValue::Int(path_id) },
    ]
}

fn asset_info(pointer: Vec<Field>) -> Vec<Field> {
    vec![Field { path: "/Base/asset".to_string(), value: FieldValue::Object(pointer) }]
}

fn manifest(entries: Vec<(String, Vec<Field>)>) -> ObjectRecord {
    ObjectRecord {
        path_id: 1,
        fields: Some(vec![Field {
            path: "/Base/m_Container/Array".to_string(),
            value: FieldValue::StringKeyMap(entries),
        }]),
    }
}

fn texture(path_id: i64, name: &str) -> ObjectRecord {
    ObjectRecord { path_id, fields: Some(texture_fields(name)) }
}

fn texture_fields(name: &str) -> Vec<Field> {
    vec![Field { path: "/Base/m_Name".to_string(), value: FieldValue::Str(name.to_string()) }]
}

#[test]
fn one_archive_with_one_named_asset() {
    let mut viewer = UnityAssetViewer::new();
    let unity_fs = UnityFS { files: vec![("CAB-abc".to_string(), vec![1, 2, 3])] };
    let cab_file = CabFile {
        path: "CAB-abc".to_string(),
        externals: vec![],
        objects: vec![
            manifest(vec![("hero.png".to_string(), asset_info(pointer(0, 42)))]),
            texture(42, "X"),
        ],
    };
    assert!(viewer.has_room_for(1));
    let unity_fs_id = viewer.add_unity_fs(unity_fs, vec![cab_file]);
    assert_eq!(unity_fs_id, 0);

    let table = viewer.get_serialized_file_by_path(&"CAB-abc".to_string()).unwrap();
    assert_eq!(table.serialized_file_id, 0);
    assert_eq!(table.objects.len(), 2);

    let expected = texture_fields("X");
    let object = viewer.get_type_tree_object_by_container_name(&"hero.png".to_string());
    assert_eq!(
        object,
        Ok(Some(TypeTreeObject { serialized_file_id: 0, path_id: 42, fields: &expected }))
    );

    assert_eq!(
        viewer.get_container_name_by_path_id(&"CAB-abc".to_string(), 42),
        Some(&"hero.png".to_string())
    );
}

#[test]
fn nothing_taken_in_gives_nothing() {
    let viewer = UnityAssetViewer::new();
    let name = "CAB-abc".to_string();
    let fields = vec![];
    let object = TypeTreeObject { serialized_file_id: 0, path_id: 1, fields: &fields };
    assert!(viewer.get_serialized_file_by_path(&name).is_none());
    assert!(viewer.get_unity_fs_by_cab_path(&name).is_none());
    assert!(viewer.get_unity_fs_by_type_tree_object(&object).is_none());
    assert!(viewer.get_container_name_by_path_id(&name, 1).is_none());
    assert_eq!(viewer.get_type_tree_object_by_container_name(&name), Ok(None));
    assert!(viewer.get_serialized_file_by_container_name(&name).is_none());
}

#[test]
fn table_without_manifest_is_still_found_by_name() {
    let mut viewer = UnityAssetViewer::new();
    let cab_file = CabFile {
        path: "CAB-plain".to_string(),
        externals: vec![],
        objects: vec![texture(7, "seven")],
    };
    viewer.add_unity_fs(UnityFS { files: vec![] }, vec![cab_file]);
    let table = viewer.get_serialized_file_by_path(&"CAB-plain".to_string()).unwrap();
    assert_eq!(table.serialized_file_id, 0);
    assert!(viewer.get_container_name_by_path_id(&"CAB-plain".to_string(), 7).is_none());
    assert!(viewer.get_unity_fs_by_cab_path(&"CAB-plain".to_string()).is_some());
}
