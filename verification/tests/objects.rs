use tile_engine::geometry::position::Position;
use tile_engine::objects::area::errors::{AreaError, PositionOutOfRange};
use tile_engine::objects::area::Area;
use tile_engine::objects::game_object::GameObject;
use tile_engine::objects::scene::{Scene, SceneError};

fn scene(x: usize, y: usize, z: usize) -> Scene<u8> {
    Scene::new(Area::new(x, y, z))
}

#[test]
fn area_insert() {
    let mut area = Area::new(2, 2, 2);
    area.try_set_pos(Position::new(0, 0, 0), Some(1)).expect("successful object inser");
    assert_eq!(area.get(0, 0, 0).is_none(), false);
    assert_eq!(area.get(1, 1, 1).is_none(), true);
}

#[test]
fn area_pop() {
    let mut area = Area::new(2, 2, 2);
    area.try_set_pos(Position::new(0, 0, 0), Some(0)).expect("successful object inser");
    assert_eq!(area.get(0, 0, 0).is_none(), false);
    let _ = area.remove(0, 0, 0).expect("not none");
}

#[test]
#[should_panic]
fn area_pop_none() {
    let mut area = Area::new(2, 2, 2);
    let _ = area.remove(0, 0, 0).expect("not none");
}

#[test]
fn area_sizes_and_bounds() {
    let area = Area::new(2, 3, 4);
    assert_eq!((area.get_size_x(), area.get_size_y(), area.get_size_z()), (2, 3, 4));
    assert!(area.check_pos_boundaries(&Position::new(1, 2, 3)));
    assert!(!area.check_pos_boundaries(&Position::new(2, 2, 3)));
    assert!(!area.check_pos_boundaries(&Position::new(1, 3, 3)));
    assert!(!area.check_pos_boundaries(&Position::new(1, 2, 4)));
    for z in 0..4 {
        for y in 0..3 {
            for x in 0..2 {
                assert_eq!(*area.get(x, y, z), None);
            }
        }
    }
}

#[test]
fn area_try_set_refuses_out_of_range() {
    let mut area = Area::new(2, 2, 1);
    match area.try_set_pos(Position::new(2, 0, 0), Some(5)) {
        Err(AreaError::OutOfRange(e)) => {
            assert_eq!(e.pos, Position::new(2, 0, 0));
            assert_eq!(e.sizes, (2, 2, 1));
        }
        other => panic!("{:?}", other),
    }
    assert!(matches!(
        area.try_set_pos(Position::new(0, 0, 1), None),
        Err(AreaError::OutOfRange(_))
    ));
}

#[test]
fn area_try_set_refuses_occupied_and_clears() {
    let mut area = Area::new(2, 2, 1);
    let p = Position::new(1, 1, 0);
    assert!(area.try_set_pos(p, Some(3)).is_ok());
    match area.try_set_pos(p, Some(4)) {
        Err(AreaError::Occupied(e)) => assert_eq!(e.0, p),
        other => panic!("{:?}", other),
    }
    assert_eq!(*area.get_pos(&p), Some(3));
    assert!(area.try_set_pos(p, None).is_ok());
    assert_eq!(*area.get_pos(&p), None);
    assert!(area.try_set_pos(p, None).is_ok());
}

#[test]
fn area_set_overwrites_and_swap_exchanges() {
    let mut area = Area::new(3, 1, 1);
    let a = Position::new(0, 0, 0);
    let b = Position::new(2, 0, 0);
    area.set_pos(a, Some(1));
    area.set_pos(a, Some(2));
    assert_eq!(*area.get_pos(&a), Some(2));
    area.swap_objects(a, b);
    assert_eq!(*area.get_pos(&a), None);
    assert_eq!(*area.get_pos(&b), Some(2));
    area.set_pos(a, Some(9));
    area.swap_objects(a, b);
    assert_eq!(*area.get_pos(&a), Some(2));
    assert_eq!(*area.get_pos(&b), Some(9));
    area.swap_objects(a, a);
    assert_eq!(*area.get_pos(&a), Some(2));
}

#[test]
fn area_resize_carries_the_common_cells() {
    let mut area = Area::new(3, 3, 2);
    area.set_pos(Position::new(0, 0, 0), Some(1));
    area.set_pos(Position::new(2, 2, 1), Some(2));
    area.set_pos(Position::new(1, 2, 0), Some(3));
    area.resize(2, 4, 1);
    assert_eq!((area.get_size_x(), area.get_size_y(), area.get_size_z()), (2, 4, 1));
    assert_eq!(*area.get(0, 0, 0), Some(1));
    assert_eq!(*area.get(1, 2, 0), Some(3));
    assert_eq!(*area.get(1, 3, 0), None);
    area.resize(3, 3, 2);
    assert_eq!(*area.get(2, 2, 1), None);
    assert_eq!(*area.get(0, 0, 0), Some(1));
}

#[test]
fn position_out_of_range_records_the_extents() {
    let area = Area::new(4, 5, 6);
    let e = PositionOutOfRange::new(Position::new(9, 9, 9), &area);
    assert_eq!(e.pos, Position::new(9, 9, 9));
    assert_eq!(e.sizes, (4, 5, 6));
}

#[test]
fn game_object_accessors() {
    let mut o = GameObject::new(7, Position::new(1, 2, 3));
    assert_eq!(o.get_type(), 7);
    assert_eq!(o.get_pos(), Position::new(1, 2, 3));
    o.set_pos(Position::new(0, 0, 0));
    o.set_type(-4);
    assert_eq!(o, GameObject::new(-4, Position::new(0, 0, 0)));
}

#[test]
fn scene_insert_move_remove() {
    let mut s = scene(2, 2, 1);
    assert_eq!(s.add_object(GameObject::new(7, Position::new(0, 0, 0))).unwrap(), 0);
    assert!(matches!(
        s.add_object(GameObject::new(7, Position::new(0, 0, 0))),
        Err(SceneError::Occupied(_))
    ));
    assert_eq!(s.add_object(GameObject::new(8, Position::new(1, 1, 0))).unwrap(), 1);
    assert!(s.update_object(0, Position::new(1, 0, 0)).is_ok());
    assert!(s.get_by_pos(Position::new(0, 0, 0)).is_none());
    assert_eq!(s.get_by_pos(Position::new(1, 0, 0)).unwrap().get_type(), 7);
    assert_eq!(s.get_object_pos(0).unwrap(), Position::new(1, 0, 0));
    s.remove_object(0);
    assert!(s.get_by_pos(Position::new(1, 0, 0)).is_none());
    assert!(matches!(s.get_object_pos(0), Err(SceneError::NotFound(0))));
    s.remove_object(0);
    s.remove_object(77);
    assert_eq!(s.get_object_pos(1).unwrap(), Position::new(1, 1, 0));
}

#[test]
fn scene_add_out_of_range_uses_up_no_identifier() {
    let mut s = scene(2, 2, 1);
    match s.add_object(GameObject::new(1, Position::new(0, 2, 0))) {
        Err(SceneError::OutOfRange(e)) => assert_eq!(e.pos, Position::new(0, 2, 0)),
        other => panic!("{:?}", other),
    }
    assert_eq!(s.add_object(GameObject::new(1, Position::new(0, 1, 0))).unwrap(), 0);
}

#[test]
fn scene_identifiers_rise_and_are_not_used_again() {
    let mut s = scene(3, 1, 1);
    let a = s.add_object(GameObject::new(0, Position::new(0, 0, 0))).unwrap();
    let b = s.add_object(GameObject::new(0, Position::new(1, 0, 0))).unwrap();
    s.remove_object(a);
    s.remove_object(b);
    let c = s.add_object(GameObject::new(0, Position::new(0, 0, 0))).unwrap();
    assert!(a < b && b < c);
    assert_eq!((a, b, c), (0, 1, 2));
    assert!(s.has_free_id());
}

#[test]
fn scene_failed_move_changes_nothing() {
    let mut s = scene(2, 2, 1);
    let a = s.add_object(GameObject::new(1, Position::new(0, 0, 0))).unwrap();
    let b = s.add_object(GameObject::new(2, Position::new(1, 0, 0))).unwrap();
    match s.update_object(a, Position::new(1, 0, 0)) {
        Err(SceneError::Occupied(e)) => assert_eq!(e.0, Position::new(1, 0, 0)),
        other => panic!("{:?}", other),
    }
    assert!(matches!(s.update_object(a, Position::new(0, 0, 1)), Err(SceneError::OutOfRange(_))));
    assert!(matches!(s.update_object(9, Position::new(0, 1, 0)), Err(SceneError::NotFound(9))));
    assert_eq!(s.get_object_pos(a).unwrap(), Position::new(0, 0, 0));
    assert_eq!(s.get_by_pos(Position::new(0, 0, 0)).unwrap().get_type(), 1);
    assert_eq!(s.get_object_pos(b).unwrap(), Position::new(1, 0, 0));
    assert_eq!(s.get_by_pos(Position::new(1, 0, 0)).unwrap().get_type(), 2);
}

#[test]
fn scene_move_to_own_cell() {
    let mut s = scene(2, 2, 1);
    let a = s.add_object(GameObject::new(1, Position::new(1, 1, 0))).unwrap();
    assert!(s.update_object(a, Position::new(1, 1, 0)).is_ok());
    assert_eq!(s.get(1, 1, 0).unwrap().get_type(), 1);
    assert_eq!(s.get_object_pos(a).unwrap(), Position::new(1, 1, 0));
}

#[test]
fn scene_cells_name_their_objects() {
    let mut s = scene(3, 3, 2);
    let mut ids = Vec::new();
    for (i, p) in [(0, 0, 0), (2, 1, 0), (1, 1, 1), (2, 2, 1)].iter().enumerate() {
        ids.push(s.add_object(GameObject::new(i as i32, Position::new(p.0, p.1, p.2))).unwrap());
    }
    s.update_object(ids[0], Position::new(0, 2, 1)).unwrap();
    s.remove_object(ids[1]);
    let mut seen = 0;
    for z in 0..2 {
        for y in 0..3 {
            for x in 0..3 {
                if let Some(o) = s.get(x, y, z) {
                    assert_eq!(o.get_pos(), Position::new(x, y, z));
                    seen += 1;
                }
            }
        }
    }
    assert_eq!(seen, 3);
}

#[test]
fn scene_get_outside_the_grid_is_none() {
    let mut s = scene(1, 1, 1);
    s.add_object(GameObject::new(1, Position::new(0, 0, 0))).unwrap();
    assert!(s.get(1, 0, 0).is_none());
    assert!(s.get_by_pos(Position::new(0, 0, 5)).is_none());
    assert_eq!((s.get_size_x(), s.get_size_y(), s.get_size_z()), (1, 1, 1));
}

#[test]
fn scene_smart_resize_purges() {
    let mut s = scene(3, 3, 1);
    let far = s.add_object(GameObject::new(1, Position::new(2, 2, 0))).unwrap();
    let near = s.add_object(GameObject::new(2, Position::new(0, 0, 0))).unwrap();
    s.resize_with_objects(2, 2, 1);
    assert!(s.get_by_id(far).is_none());
    assert!(matches!(s.get_object_pos(far), Err(SceneError::NotFound(_))));
    assert_eq!(s.get_by_id(near).unwrap().get_type(), 2);
    assert_eq!(s.get_by_pos(Position::new(0, 0, 0)).unwrap().get_type(), 2);
    assert_eq!((s.get_size_x(), s.get_size_y(), s.get_size_z()), (2, 2, 1));
}

#[test]
fn scene_smart_resize_purges_on_the_edge() {
    let mut s = scene(3, 3, 2);
    let a = s.add_object(GameObject::new(1, Position::new(2, 0, 0))).unwrap();
    let b = s.add_object(GameObject::new(2, Position::new(0, 2, 0))).unwrap();
    let c = s.add_object(GameObject::new(3, Position::new(0, 0, 1))).unwrap();
    let d = s.add_object(GameObject::new(4, Position::new(1, 1, 0))).unwrap();
    s.resize_with_objects(2, 2, 1);
    assert!(s.get_object_pos(a).is_err());
    assert!(s.get_object_pos(b).is_err());
    assert!(s.get_object_pos(c).is_err());
    assert_eq!(s.get_object_pos(d).unwrap(), Position::new(1, 1, 0));
}

#[test]
fn scene_plain_resize_leaves_objects_dangling() {
    let mut s = scene(3, 3, 1);
    let far = s.add_object(GameObject::new(1, Position::new(2, 2, 0))).unwrap();
    let near = s.add_object(GameObject::new(2, Position::new(0, 0, 0))).unwrap();
    s.resize(2, 2, 1);
    assert_eq!(s.get_object_pos(far).unwrap(), Position::new(2, 2, 0));
    assert!(s.get_by_pos(Position::new(2, 2, 0)).is_none());
    assert_eq!(s.get_by_pos(Position::new(0, 0, 0)).unwrap().get_type(), 2);
    s.resize(3, 3, 1);
    assert!(s.get_by_pos(Position::new(2, 2, 0)).is_none());
    let other = s.add_object(GameObject::new(3, Position::new(2, 2, 0))).unwrap();
    s.remove_object(far);
    assert_eq!(s.get_by_pos(Position::new(2, 2, 0)).unwrap().get_type(), 3);
    assert_eq!(s.get_object_pos(other).unwrap(), Position::new(2, 2, 0));
    assert_eq!(s.get_object_pos(near).unwrap(), Position::new(0, 0, 0));
}

#[test]
fn scene_dangling_object_can_move_back_in() {
    let mut s = scene(3, 1, 1);
    let a = s.add_object(GameObject::new(1, Position::new(2, 0, 0))).unwrap();
    s.resize(2, 1, 1);
    assert!(s.update_object(a, Position::new(1, 0, 0)).is_ok());
    assert_eq!(s.get_by_pos(Position::new(1, 0, 0)).unwrap().get_type(), 1);
}

#[test]
fn scene_change_type_through_the_handle() {
    let mut s = scene(1, 1, 1);
    let a = s.add_object(GameObject::new(1, Position::new(0, 0, 0))).unwrap();
    s.get_by_id(a).unwrap().set_type(5);
    assert_eq!(s.get(0, 0, 0).unwrap().get_type(), 5);
    assert!(s.get_by_id(a + 1).is_none());
}

#[test]
fn scene_textures_are_indexed_in_loading_order() {
    let mut s = scene(1, 1, 1);
    assert_eq!(s.texture_count(), 0);
    assert!(s.get_texture(0).is_none());
    s.load_texture(10);
    s.load_textures(vec![20, 30]);
    assert_eq!(s.texture_count(), 3);
    assert_eq!(s.get_texture(0), Some(&10));
    assert_eq!(s.get_texture(1), Some(&20));
    assert_eq!(s.get_texture(2), Some(&30));
    assert!(s.get_texture(3).is_none());
}
