use muse::kmeans::{accumulate_bins, occupied_bins, quantize_pixel, BIN_COUNT};

#[test]
fn quantize_pixel_keeps_the_top_five_bits_of_each_channel() {
    assert_eq!(quantize_pixel(0, 0, 0), 0);
    assert_eq!(quantize_pixel(7, 7, 7), 0);
    assert_eq!(quantize_pixel(8, 0, 0), 1024);
    assert_eq!(quantize_pixel(0, 8, 0), 32);
    assert_eq!(quantize_pixel(0, 0, 8), 1);
    assert_eq!(quantize_pixel(255, 255, 255), 32767);
    assert_eq!(quantize_pixel(175, 215, 95), (175 / 8) * 1024 + (215 / 8) * 32 + 95 / 8);
}

#[test]
fn both_clusterings_bin_alike() {
    for (r, g, b) in [(1u8, 2u8, 3u8), (200, 100, 50), (255, 0, 128)] {
        assert_eq!(
            quantize_pixel(r, g, b),
            muse::colorgen::kmeans::quantize_pixel(r, g, b)
        );
    }
}

#[test]
fn same_bin_exactly_when_top_bits_agree() {
    assert_eq!(quantize_pixel(16, 16, 16), quantize_pixel(23, 20, 17));
    assert_ne!(quantize_pixel(16, 16, 16), quantize_pixel(24, 16, 16));
}

#[test]
fn accumulate_bins_sums_and_counts_each_bin() {
    let pixels = vec![[0, 0, 0], [7, 7, 7], [255, 0, 0], [250, 1, 2]];
    let bins = accumulate_bins(&pixels);
    assert_eq!(bins.len(), BIN_COUNT);
    assert_eq!((bins[0].r_sum, bins[0].g_sum, bins[0].b_sum, bins[0].count), (7, 7, 7, 2));
    let red = quantize_pixel(255, 0, 0);
    assert_eq!(red, quantize_pixel(250, 1, 2));
    assert_eq!(
        (bins[red].r_sum, bins[red].g_sum, bins[red].b_sum, bins[red].count),
        (505, 1, 2, 2)
    );
    let total: usize = bins.iter().map(|b| b.count).sum();
    assert_eq!(total, pixels.len());
}

#[test]
fn accumulate_bins_of_no_pixels_is_all_empty() {
    let bins = accumulate_bins(&vec![]);
    assert_eq!(bins.len(), BIN_COUNT);
    assert!(bins.iter().all(|b| b.count == 0 && b.r_sum == 0));
}

#[test]
fn only_occupied_bins_are_kept_in_order() {
    let bins = accumulate_bins(&vec![[255, 255, 255], [0, 0, 0], [1, 2, 3], [255, 250, 248]]);
    let kept = occupied_bins(&bins);
    assert_eq!(kept.len(), 2);
    assert_eq!((kept[0].count, kept[0].r_sum, kept[0].g_sum, kept[0].b_sum), (2, 1, 2, 3));
    assert_eq!((kept[1].count, kept[1].r_sum, kept[1].g_sum, kept[1].b_sum), (2, 510, 505, 503));
    assert!(occupied_bins(&accumulate_bins(&vec![])).is_empty());
}
