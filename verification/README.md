# cigi_trillium

Protocol and control logic of a bridge between Trillium Orion gimbal controllers
and a CIGI v3.3 scene generator, with a simulated gimbal. The library under `src/`
is verified with Verus; `app/` is the program around it.

| module      | content                                                             |
|-------------|---------------------------------------------------------------------|
| `bits`      | IEEE 754 values as bit patterns: order, bounds, signs               |
| `bytes`     | reading and writing integers in either byte order                   |
| `text`      | text comparison                                                     |
| `orion`     | Orion packets, frames and byte streams                              |
| `cigi`      | CIGI messages, datagrams and the responses of a scene generator     |
| `server`    | the packets that a CIGI host sends                                  |
| `platform`  | platform state from MAVLink, STANAG 4586 or the settings            |
| `config`    | settings and the fold of a configuration file into them             |
| `convert`   | Orion commands to CIGI, CIGI responses to Orion telemetry           |
| `faults`    | injected faults, noise and diagnostics                              |
| `geo`       | decisions of geolocation                                            |
| `simulator` | the simulated gimbal: commands, motion of a tick, telemetry         |
| `bridge`    | the connection to a real gimbal                                     |
| `trillium`  | the connection of a controller                                      |
| `runtime`   | decisions of the main loop                                          |

Numbers such as angles are held as bit patterns. Comparing, clamping and negating
them is integer work and is verified; sums, products and trigonometry are done in
`app/` and handed to the library, whose contracts say what it makes of them.
