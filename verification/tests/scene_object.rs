use autograph::scene_object::SceneNode;
use autograph::scene_object::SceneObjects;

fn node(id: u64, parent_id: Option<u64>) -> SceneNode {
    SceneNode { id, parent_id, children: Vec::new() }
}

#[test]
fn changes_apply_at_commit_in_order() {
    let mut objs = SceneObjects::new();
    objs.insert(node(1, None));
    objs.insert(node(2, Some(1)));
    objs.insert(node(3, None));
    objs.parent(1, 3);
    // nothing changes before the commit
    assert!(objs.get(1).is_none());
    assert!(objs.pending_changes_apply());
    objs.commit_changes();
    assert_eq!(objs.get(1).unwrap().children, vec![2, 3]);
    assert_eq!(objs.get(2).unwrap().parent_id, Some(1));
    assert_eq!(objs.get(3).unwrap().parent_id, Some(1));
    assert!(objs.get(4).is_none());
}

#[test]
fn orphaning_removes_every_link() {
    let mut objs = SceneObjects::new();
    objs.insert(node(1, None));
    objs.insert(node(2, Some(1)));
    objs.parent(1, 2);
    objs.commit_changes();
    assert_eq!(objs.get(1).unwrap().children, vec![2, 2]);
    objs.orphan(1, 2);
    objs.commit_changes();
    assert!(objs.get(1).unwrap().children.is_empty());
    assert_eq!(objs.get(2).unwrap().parent_id, None);
}

#[test]
fn removal_removes_the_object_alone() {
    let mut objs = SceneObjects::new();
    objs.insert(node(1, None));
    objs.insert(node(2, Some(1)));
    objs.remove(2);
    objs.commit_changes();
    assert!(objs.get(2).is_none());
    // the parent still lists it
    assert_eq!(objs.get(1).unwrap().children, vec![2]);
}

#[test]
fn invalid_changes_are_detected() {
    let mut objs = SceneObjects::new();
    objs.parent(1, 2);
    assert!(!objs.pending_changes_apply());

    let mut objs = SceneObjects::new();
    objs.insert(node(1, None));
    objs.insert(node(1, None));
    assert!(!objs.pending_changes_apply());

    let mut objs = SceneObjects::new();
    objs.insert(node(1, None));
    objs.remove(1);
    objs.insert(node(1, None));
    assert!(objs.pending_changes_apply());
    objs.remove(1);
    objs.remove(1);
    assert!(!objs.pending_changes_apply());
}
