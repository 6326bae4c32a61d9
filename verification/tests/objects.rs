use io_unity::type_tree::Field;
use io_unity::type_tree::FieldValue;
use io_unity::type_tree::TypeTreeObject;
use io_unity::UnityFS;

fn w(t: &str) -> String {
    t.to_string()
}

fn sample() -> Vec<Field> {
    vec![
        Field { path: w("/Base/m_Name"), value: FieldValue::Str(w("hero")) },
        Field { path: w("/Base/m_Width"), value: FieldValue::Int(64) },
        Field { path: w("/Base/m_Width"), value: FieldValue::Int(128) },
        Field {
            path: w("/Base/m_Texture"),
            value: FieldValue::Object(vec![Field { path: w("/Base/m_PathID"), value: FieldValue::Int(3) }]),
        },
        Field {
            path: w("/Base/m_Map"),
            value: FieldValue::StringKeyMap(vec![(w("k"), vec![]), (w("k"), vec![])]),
        },
        Field { path: w(""), value: FieldValue::Int(-1) },
    ]
}

#[test]
fn field_by_path_takes_the_first_of_that_path() {
    let fields = sample();
    let object = TypeTreeObject::new(2, 9, &fields);
    assert_eq!(object.get_field_by_path(&w("/Base/m_Width")), Some(&FieldValue::Int(64)));
    assert_eq!(object.get_field_by_path(&w("/Base/m_Name")), Some(&FieldValue::Str(w("hero"))));
    assert_eq!(object.get_field_by_path(&w("")), Some(&FieldValue::Int(-1)));
    assert_eq!(object.get_field_by_path(&w("/Base/m_Height")), None);
    assert_eq!(object.get_field_by_path(&w("/Base/m_width")), None);
    assert_eq!(object.get_field_by_path(&w("/Base/m_Width/")), None);
}

#[test]
fn number_by_path() {
    let fields = sample();
    let object = TypeTreeObject::new(2, 9, &fields);
    assert_eq!(object.get_int_by_path(&w("/Base/m_Width")), Some(64));
    assert_eq!(object.get_int_by_path(&w("/Base/m_Name")), None);
    assert_eq!(object.get_int_by_path(&w("/Base/m_Texture")), None);
    assert_eq!(object.get_int_by_path(&w("/Base/m_Height")), None);
}

#[test]
fn nested_object_by_path_carries_the_numbers_of_its_holder() {
    let fields = sample();
    let object = TypeTreeObject::new(2, 9, &fields);
    let inner = vec![Field { path: w("/Base/m_PathID"), value: FieldValue::Int(3) }];
    assert_eq!(
        object.get_object_by_path(&w("/Base/m_Texture")),
        Some(TypeTreeObject { serialized_file_id: 2, path_id: 9, fields: &inner })
    );
    assert_eq!(object.get_object_by_path(&w("/Base/m_Width")), None);
    assert_eq!(object.get_object_by_path(&w("/Base/m_Map")), None);
    assert_eq!(object.get_object_by_path(&w("/Base/none")), None);
    assert_eq!(object.get_nested(&inner), TypeTreeObject { serialized_file_id: 2, path_id: 9, fields: &inner });
}

#[test]
fn string_keyed_list_by_path_keeps_order_and_repeats() {
    let fields = sample();
    let object = TypeTreeObject::new(2, 9, &fields);
    assert_eq!(
        object.get_string_key_map_by_path(&w("/Base/m_Map")),
        Some(&vec![(w("k"), vec![]), (w("k"), vec![])])
    );
    assert_eq!(object.get_string_key_map_by_path(&w("/Base/m_Texture")), None);
    assert_eq!(object.get_string_key_map_by_path(&w("/Base/m_Name")), None);
    assert_eq!(object.get_string_key_map_by_path(&w("/Base/none")), None);
}

#[test]
fn archive_lists_its_virtual_files_in_order() {
    let unity_fs = UnityFS {
        files: vec![(w("CAB-b"), vec![2]), (w("CAB-a"), vec![1]), (w("CAB-b"), vec![3])],
    };
    assert_eq!(unity_fs.get_cab_path(), vec![w("CAB-b"), w("CAB-a"), w("CAB-b")]);
    assert_eq!(UnityFS { files: vec![] }.get_cab_path(), Vec::<String>::new());
}

#[test]
fn archive_gives_the_first_virtual_file_of_a_name() {
    let unity_fs = UnityFS {
        files: vec![(w("CAB-b"), vec![2]), (w("CAB-a"), vec![]), (w("CAB-b"), vec![3])],
    };
    assert_eq!(unity_fs.get_file_by_path(&w("CAB-b")), Some(&vec![2u8]));
    assert_eq!(unity_fs.get_file_by_path(&w("CAB-a")), Some(&vec![]));
    assert_eq!(unity_fs.get_file_by_path(&w("CAB-c")), None);
}
