use perceptia::keys;

#[test]
fn key_codes_are_those_of_the_kernel() {
    assert_eq!(keys::KEY_ESC, uinput_sys::KEY_ESC);
    assert_eq!(keys::KEY_1, uinput_sys::KEY_1);
    assert_eq!(keys::KEY_2, uinput_sys::KEY_2);
    assert_eq!(keys::KEY_3, uinput_sys::KEY_3);
    assert_eq!(keys::KEY_4, uinput_sys::KEY_4);
    assert_eq!(keys::KEY_5, uinput_sys::KEY_5);
    assert_eq!(keys::KEY_6, uinput_sys::KEY_6);
    assert_eq!(keys::KEY_7, uinput_sys::KEY_7);
    assert_eq!(keys::KEY_8, uinput_sys::KEY_8);
    assert_eq!(keys::KEY_9, uinput_sys::KEY_9);
    assert_eq!(keys::KEY_10, uinput_sys::KEY_10);
    assert_eq!(keys::KEY_TAB, uinput_sys::KEY_TAB);
    assert_eq!(keys::KEY_Q, uinput_sys::KEY_Q);
    assert_eq!(keys::KEY_W, uinput_sys::KEY_W);
    assert_eq!(keys::KEY_E, uinput_sys::KEY_E);
    assert_eq!(keys::KEY_R, uinput_sys::KEY_R);
    assert_eq!(keys::KEY_T, uinput_sys::KEY_T);
    assert_eq!(keys::KEY_Y, uinput_sys::KEY_Y);
    assert_eq!(keys::KEY_U, uinput_sys::KEY_U);
    assert_eq!(keys::KEY_I, uinput_sys::KEY_I);
    assert_eq!(keys::KEY_O, uinput_sys::KEY_O);
    assert_eq!(keys::KEY_P, uinput_sys::KEY_P);
    assert_eq!(keys::KEY_A, uinput_sys::KEY_A);
    assert_eq!(keys::KEY_S, uinput_sys::KEY_S);
    assert_eq!(keys::KEY_D, uinput_sys::KEY_D);
    assert_eq!(keys::KEY_F, uinput_sys::KEY_F);
    assert_eq!(keys::KEY_G, uinput_sys::KEY_G);
    assert_eq!(keys::KEY_H, uinput_sys::KEY_H);
    assert_eq!(keys::KEY_J, uinput_sys::KEY_J);
    assert_eq!(keys::KEY_K, uinput_sys::KEY_K);
    assert_eq!(keys::KEY_L, uinput_sys::KEY_L);
    assert_eq!(keys::KEY_Z, uinput_sys::KEY_Z);
    assert_eq!(keys::KEY_X, uinput_sys::KEY_X);
    assert_eq!(keys::KEY_C, uinput_sys::KEY_C);
    assert_eq!(keys::KEY_V, uinput_sys::KEY_V);
    assert_eq!(keys::KEY_B, uinput_sys::KEY_B);
    assert_eq!(keys::KEY_N, uinput_sys::KEY_N);
    assert_eq!(keys::KEY_M, uinput_sys::KEY_M);
    assert_eq!(keys::KEY_SPACE, uinput_sys::KEY_SPACE);
    assert_eq!(keys::KEY_HOME, uinput_sys::KEY_HOME);
    assert_eq!(keys::KEY_UP, uinput_sys::KEY_UP);
    assert_eq!(keys::KEY_PAGEUP, uinput_sys::KEY_PAGEUP);
    assert_eq!(keys::KEY_LEFT, uinput_sys::KEY_LEFT);
    assert_eq!(keys::KEY_RIGHT, uinput_sys::KEY_RIGHT);
    assert_eq!(keys::KEY_END, uinput_sys::KEY_END);
    assert_eq!(keys::KEY_DOWN, uinput_sys::KEY_DOWN);
    assert_eq!(keys::KEY_PAGEDOWN, uinput_sys::KEY_PAGEDOWN);
}
