use vjmapper::layers::{click_layer, layer_drop, layer_toolbar, LayerClick, LayerToolbarAction};

#[test]
fn toolbar_acts_on_the_selection() {
    let mut selected = None;
    assert_eq!(layer_toolbar(&mut selected, LayerClick::Add), Some(LayerToolbarAction::AddLayer));
    assert_eq!(layer_toolbar(&mut selected, LayerClick::Remove), None);
    assert_eq!(layer_toolbar(&mut selected, LayerClick::Duplicate), None);
    click_layer(&mut selected, 7);
    assert_eq!(layer_toolbar(&mut selected, LayerClick::Duplicate), Some(LayerToolbarAction::DuplicateLayer(7)));
    assert_eq!(selected, Some(7));
    assert_eq!(layer_toolbar(&mut selected, LayerClick::Remove), Some(LayerToolbarAction::RemoveLayer(7)));
    assert_eq!(selected, None);
    assert_eq!(layer_toolbar(&mut selected, LayerClick::EjectAll), Some(LayerToolbarAction::EjectAllLayers));
}

#[test]
fn drop_adjusts_the_target_when_moving_down() {
    let ids = vec![10, 20, 30, 40];
    assert_eq!(layer_drop(&ids, 20, 3), Some((1, 2)));
    assert_eq!(layer_drop(&ids, 40, 0), Some((3, 0)));
    assert_eq!(layer_drop(&ids, 30, 2), Some((2, 2)));
    assert_eq!(layer_drop(&ids, 99, 1), None);
}
