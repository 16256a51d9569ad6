//! The fixed text of the pages that draw with vector graphics, cut where
//! geometry and settings are written in.

use vstd::prelude::*;

verus! {

pub const MARKUP_01: &'static str = r#"<svg id="svg" xmlns="http://www.w3.org/2000/svg" viewBox=""#;

pub const MARKUP_02: &'static str = r#" "#;

pub const MARKUP_03: &'static str = r#" "#;

pub const MARKUP_04: &'static str = r#" "#;

pub const MARKUP_05: &'static str = r#"" width="500" height="500">
  <defs>
    <radialGradient id="sparkGrad">
      <stop offset="0%" stop-color="white"/>
      <stop offset="20%" stop-color="lightyellow"/>
      <stop offset="50%" stop-color="orange"/>
      <stop offset="80%" stop-color="orangered"/>
      <stop offset="100%" stop-color="transparent"/>
    </radialGradient>
    <filter id="glow">
      <feGaussianBlur stdDeviation=""#;

pub const MARKUP_06: &'static str = r#"" result="blur"/>
      <feMerge><feMergeNode in="blur"/><feMergeNode in="SourceGraphic"/></feMerge>
    </filter>
  </defs>
  <path id="contour-path" d=""#;

pub const MARKUP_07: &'static str = r#"" fill="none" stroke="white" stroke-width=""#;

pub const MARKUP_08: &'static str = r#"" style="display:none"/>
  <g id="fourier-group"></g>
  <polyline id="trace" fill="none" stroke="red" stroke-width=""#;

pub const MARKUP_09: &'static str = r#"" points="" opacity="0"/>
  <g id="dot" filter="url(#glow)">
    <circle id="spark-glow" cx="0" cy="0" r=""#;

pub const MARKUP_10: &'static str = r#"" fill="url(#sparkGrad)" opacity="0.9"/>
    <circle cx="0" cy="0" r=""#;

pub const MARKUP_11: &'static str = r#"" fill="white"/>
    <g id="spark-rays"></g>
    <g id="spark-particles"></g>
  </g>
  <text id="nh-label" fill="white" font-size=""#;

pub const MARKUP_12: &'static str = r#"" style="pointer-events:none"></text>
</svg>"#;

pub const CONTOUR_SHOWN: &'static str = r#"document.getElementById("contour-path").style.display = "";"#;

pub const CONTOUR_HANDLE: &'static str = r#"const contourPath = document.getElementById("contour-path");"#;

pub const CIRCLES_HIDDEN: &'static str = r#"document.getElementById("fourier-group").style.display = "none";"#;

pub const CIRCLES_HANDLE: &'static str = r#"const fourierGroup = document.getElementById("fourier-group");"#;

pub const FULL_01: &'static str = r#"
"#;

pub const FULL_02: &'static str = r#"
<div style="margin-top:10px">
  <input type="range" id="slider" min="0" max="1" step="0.001" value="0" style="width:500px"/>
  <span id="tval">t = 0.000</span>
</div>
<div style="margin-top:5px;display:flex;flex-wrap:wrap;gap:10px;align-items:center;justify-content:center">
  <span id="loopVal">loop 0/0 â€” harmonics: 1</span>
  <span style="color:#888">max harmonics: "#;

pub const FULL_03: &'static str = r#"</span>
</div>
<div style="margin-top:5px;display:flex;flex-wrap:wrap;gap:10px;align-items:center;justify-content:center">
  <button id="startBtn">Start</button>
  <button id="stopBtn">Stop</button>
  <button id="harmonicsBtn">Harmonics</button>
  <label>Harmonics loop: <input type="text" id="stepsInput" value=""#;

pub const FULL_04: &'static str = r#"" style="width:400px;font-family:monospace;font-size:0.85em" title="from step to speed ; from step to speed ; ..."/></label>
</div>
<div style="margin-top:5px;display:flex;flex-wrap:wrap;gap:10px;align-items:center;justify-content:center">
  "#;

pub const FULL_05: &'static str = r#"
  <label><input type="checkbox" id="chkPoint""#;

pub const FULL_06: &'static str = r#"/> Point</label>
  "#;

pub const FULL_07: &'static str = r#"
  <label><input type="checkbox" id="chkNh""#;

pub const FULL_08: &'static str = r#"/> NH label</label>
  "#;

pub const FULL_09: &'static str = r#"
</div>
<div style="margin-top:5px;display:flex;flex-wrap:wrap;gap:10px;align-items:center;justify-content:center">
  <label>Opacity: <input type="range" id="opacitySlider" min="0" max="1" step="0.05" value=""#;

pub const FULL_10: &'static str = r#"" style="width:100px"/> <span id="opacityVal">"#;

pub const FULL_11: &'static str = r#"</span></label>
  <label>Trace length: <input type="range" id="traceLenSlider" min="0.05" max="1" step="0.05" value=""#;

pub const FULL_12: &'static str = r#"" style="width:100px"/> <span id="traceLenVal">"#;

pub const FULL_13: &'static str = r#"</span></label>
  <label>Trace width: <input type="range" id="traceWidthSlider" min="0.1" max="2" step="0.1" value=""#;

pub const FULL_14: &'static str = r#"" style="width:100px"/> <span id="traceWidthVal">"#;

pub const FULL_15: &'static str = r#"</span></label>
  <label>Contour width: <input type="range" id="contourWidthSlider" min="0.1" max="5" step="0.1" value=""#;

pub const FULL_16: &'static str = r#"" style="width:100px"/> <span id="contourWidthVal">"#;

pub const FULL_17: &'static str = r#"</span></label>
</div>
<div id="harmonicsDiv" style="display:none;margin-top:10px;max-height:300px;overflow:auto">
  <table style="border-collapse:collapse;font-family:monospace;font-size:0.85em">
    <thead><tr><th style="padding:2px 8px;border-bottom:1px solid #555">#</th><th style="padding:2px 8px;border-bottom:1px solid #555">freq</th><th style="padding:2px 8px;border-bottom:1px solid #555">re</th><th style="padding:2px 8px;border-bottom:1px solid #555">im</th><th style="padding:2px 8px;border-bottom:1px solid #555">radius</th></tr></thead>
    <tbody id="harmonicsTbody"></tbody>
  </table>
</div>
<script>
const points = "#;

pub const FULL_18: &'static str = r#";
const fourier = "#;

pub const FULL_19: &'static str = r#";
const slider = document.getElementById("slider");
const dot = document.getElementById("dot");
const tval = document.getElementById("tval");
const svgNS = "http://www.w3.org/2000/svg";
const fourierCircleColors = ["blue", "green", "orange", "purple", "cyan", "magenta"];
const traceColors = "#;

pub const FULL_20: &'static str = r#";
let traceColorIdx = 0;
const scale = "#;

pub const FULL_21: &'static str = r#" / 100;
const traceEl = document.getElementById("trace");
const contourPath = document.getElementById("contour-path");
const fourierGroup = document.getElementById("fourier-group");
const nhLabel = document.getElementById("nh-label");

let traceVisible = true;
let traceHistory = [];
traceEl.setAttribute("opacity", "#;

pub const FULL_22: &'static str = r#");
traceEl.setAttribute("stroke-width", "#;

pub const FULL_23: &'static str = r#" * scale);
contourPath.setAttribute("stroke-width", "#;

pub const FULL_24: &'static str = r#" * scale);

function getShowMode(selId) {
  const sel = document.getElementById(selId);
  const mode = sel.value;
  if (mode === "every") {
    const m = parseInt(document.getElementById(selId + "M").value) || 2;
    const rs = document.getElementById(selId + "R").value.split(",").map(s => parseInt(s.trim())).filter(n => !isNaN(n));
    return { modulo: m, remainders: rs.length ? rs : [0] };
  }
  return mode;
}

function shouldShow(mode, loopIdx) {
  if (mode === "always") return true;
  if (mode === "never") return false;
  return mode.remainders.includes(loopIdx % mode.modulo);
}

function wireShowSelect(selId) {
  const sel = document.getElementById(selId);
  const mInput = document.getElementById(selId + "M");
  const rInput = document.getElementById(selId + "R");
  sel.addEventListener("change", function() {
    const show = this.value === "every" ? "" : "none";
    mInput.style.display = show;
    rInput.style.display = show;
  });
}
wireShowSelect("selContour");
wireShowSelect("selTrace");
wireShowSelect("selCircles");

const opacitySlider = document.getElementById("opacitySlider");
const opacityVal = document.getElementById("opacityVal");
opacitySlider.addEventListener("input", function() {
  opacityVal.textContent = parseFloat(this.value).toFixed(2);
  traceEl.setAttribute("opacity", this.value);
});

const traceLenSlider = document.getElementById("traceLenSlider");
const traceLenVal = document.getElementById("traceLenVal");
traceLenSlider.addEventListener("input", function() {
  traceLenVal.textContent = parseFloat(this.value).toFixed(2);
});

const traceWidthSlider = document.getElementById("traceWidthSlider");
const traceWidthVal = document.getElementById("traceWidthVal");
traceWidthSlider.addEventListener("input", function() {
  traceWidthVal.textContent = parseFloat(this.value).toFixed(1);
  traceEl.setAttribute("stroke-width", parseFloat(this.value) * scale);
});

const contourWidthSlider = document.getElementById("contourWidthSlider");
const contourWidthVal = document.getElementById("contourWidthVal");
contourWidthSlider.addEventListener("input", function() {
  contourWidthVal.textContent = parseFloat(this.value).toFixed(1);
  contourPath.setAttribute("stroke-width", parseFloat(this.value) * scale);
});

document.getElementById("chkPoint").addEventListener("change", function() {
  dot.style.display = this.checked ? "" : "none";
});
document.getElementById("chkNh").addEventListener("change", function() {
  nhLabel.style.display = this.checked ? "" : "none";
});

function evalFourier(t) {
  if (!fourier) return null;
  const numH = getNumHarmonics();
  let cx = 0, cy = 0;
  for (let k = 0; k < numH; k++) {
    const c = fourier[k];
    const theta = 2 * Math.PI * c.freq * t;
    cx += c.re * Math.cos(theta) - c.im * Math.sin(theta);
    cy += c.im * Math.cos(theta) + c.re * Math.sin(theta);
  }
  return [cx, cy];
}

function updateTrace(t) {
  if (!traceVisible || !fourier) {
    traceEl.style.display = "none";
    return;
  }
  const pt = evalFourier(t);
  if (!pt) return;
  traceHistory.push(pt);
  const maxLen = Math.round(parseFloat(traceLenSlider.value) * points.length);
  if (traceHistory.length > maxLen) {
    traceHistory = traceHistory.slice(traceHistory.length - maxLen);
  }
  traceEl.setAttribute("points", traceHistory.map(p => p[0] + "," + p[1]).join(" "));
  traceEl.style.display = "";
}

function initFourier() {
  if (!fourier) return;
  const g = fourierGroup;
  for (let k = 0; k < fourier.length; k++) {
    const color = fourierCircleColors[k % fourierCircleColors.length];
    const circle = document.createElementNS(svgNS, "circle");
    circle.id = "fourier-circle-" + k;
    circle.setAttribute("fill", "none");
    circle.setAttribute("stroke", color);
    circle.setAttribute("stroke-width", 0.3 * scale);
    circle.setAttribute("stroke-dasharray", scale + "," + scale);
    circle.setAttribute("r", fourier[k].r);
    g.appendChild(circle);
    const line = document.createElementNS(svgNS, "line");
    line.id = "fourier-line-" + k;
    line.setAttribute("stroke", color);
    line.setAttribute("stroke-width", 0.3 * scale);
    g.appendChild(line);
    const fdot = document.createElementNS(svgNS, "circle");
    fdot.id = "fourier-dot-" + k;
    fdot.setAttribute("r", 0.8 * scale);
    fdot.setAttribute("fill", color);
    g.appendChild(fdot);
  }
}

let numHarmonics = 2;
function getNumHarmonics() {
  if (!fourier) return 0;
  return Math.max(1, Math.min(numHarmonics, fourier.length));
}

function updateFourier(t) {
  if (!fourier) return;
  const numH = getNumHarmonics();
  let cx = 0, cy = 0;
  let firstDotX = 0, firstDotY = 0;
  for (let k = 0; k < fourier.length; k++) {
    const circle = document.getElementById("fourier-circle-" + k);
    const line = document.getElementById("fourier-line-" + k);
    const fdot = document.getElementById("fourier-dot-" + k);
    if (k >= numH) {
      circle.style.display = "none";
      line.style.display = "none";
      fdot.style.display = "none";
      continue;
    }
    circle.style.display = "";
    line.style.display = "";
    fdot.style.display = "";
    const c = fourier[k];
    const theta = 2 * Math.PI * c.freq * t;
    const dx = c.re * Math.cos(theta) - c.im * Math.sin(theta);
    const dy = c.im * Math.cos(theta) + c.re * Math.sin(theta);
    const nx = cx + dx;
    const ny = cy + dy;
    circle.setAttribute("cx", cx);
    circle.setAttribute("cy", cy);
    line.setAttribute("x1", cx);
    line.setAttribute("y1", cy);
    line.setAttribute("x2", nx);
    line.setAttribute("y2", ny);
    fdot.setAttribute("cx", nx);
    fdot.setAttribute("cy", ny);
    if (k === 0) { firstDotX = nx; firstDotY = ny; }
    cx = nx;
    cy = ny;
  }
  if (document.getElementById("chkNh").checked) {
    nhLabel.setAttribute("x", firstDotX + 2 * scale);
    nhLabel.setAttribute("y", firstDotY);
    nhLabel.textContent = numH;
  }
}

initFourier();
updateFourier(0);

const sparkRaysG = document.getElementById("spark-rays");
const sparkParticlesG = document.getElementById("spark-particles");
const sparkScale = "#;

pub const FULL_25: &'static str = r#" / 100;
const NUM_RAYS = 14;
const NUM_PARTICLES = 8;
const sparkRayEls = [];
const sparkParticleEls = [];
for (let i = 0; i < NUM_RAYS; i++) {
  const line = document.createElementNS(svgNS, "line");
  line.setAttribute("stroke-linecap", "round");
  sparkRaysG.appendChild(line);
  sparkRayEls.push(line);
}
for (let i = 0; i < NUM_PARTICLES; i++) {
  const c = document.createElementNS(svgNS, "circle");
  c.setAttribute("fill", "gold");
  sparkParticlesG.appendChild(c);
  sparkParticleEls.push(c);
}
function updateSpark() {
  for (let i = 0; i < NUM_RAYS; i++) {
    const angle = Math.random() * Math.PI * 2;
    const len = (1.0 + Math.random() * 4.0) * sparkScale;
    const inner = (0.1 + Math.random() * 0.3) * sparkScale;
    const cos = Math.cos(angle), sin = Math.sin(angle);
    sparkRayEls[i].setAttribute("x1", cos * inner);
    sparkRayEls[i].setAttribute("y1", sin * inner);
    sparkRayEls[i].setAttribute("x2", cos * len);
    sparkRayEls[i].setAttribute("y2", sin * len);
    const bright = Math.random() > 0.4;
    sparkRayEls[i].setAttribute("stroke", bright ? "gold" : "darkorange");
    sparkRayEls[i].setAttribute("stroke-width", (0.15 + Math.random() * 0.25) * sparkScale);
    sparkRayEls[i].setAttribute("opacity", 0.3 + Math.random() * 0.6);
  }
  for (let i = 0; i < NUM_PARTICLES; i++) {
    const angle = Math.random() * Math.PI * 2;
    const dist = (1.0 + Math.random() * 3.0) * sparkScale;
    sparkParticleEls[i].setAttribute("cx", Math.cos(angle) * dist);
    sparkParticleEls[i].setAttribute("cy", Math.sin(angle) * dist);
    sparkParticleEls[i].setAttribute("r", (0.05 + Math.random() * 0.15) * sparkScale);
    sparkParticleEls[i].setAttribute("opacity", 0.3 + Math.random() * 0.5);
  }
}

function updateDisplay(t) {
  tval.textContent = "t = " + t.toFixed(3);
  slider.value = t;
  updateFourier(t);
  updateTrace(t);
  updateSpark();
  const pt = evalFourier(t);
  if (pt) {
    dot.setAttribute("transform", "translate(" + pt[0] + "," + pt[1] + ")");
  }
}

slider.addEventListener("input", function() {
  traceHistory = [];
  updateDisplay(parseFloat(this.value));
});

let animId = null;
let lastTime = null;
let currentT = 0;
let loopIndex = 0;

const maxHarmonics = "#;

pub const FULL_26: &'static str = r#";
const maxNh = fourier ? Math.min(maxHarmonics, fourier.length) : 1;
let nhSteps = [];
let nhSpeeds = [];
let currentSpeed = 1;
let totalLoops = 0;

function parseStepsStr(str) {
  const groups = str.split(";").map(s => s.trim()).filter(s => s.length > 0);
  const ranges = [];
  for (const g of groups) {
    const parts = g.split(/\s+/).map(Number);
    if (parts.length === 4 && parts.every(n => !isNaN(n))) {
      ranges.push({ from: parts[0], step: parts[1], to: parts[2], speed: parts[3] });
    }
  }
  return ranges;
}

function rebuildNhSteps(str) {
  const ranges = parseStepsStr(str);
  nhSteps = [];
  nhSpeeds = [];
  if (ranges.length === 0) { nhSteps = [1]; nhSpeeds = [1]; totalLoops = 1; return; }
  let i = ranges[0].from;
  while (nhSteps.length < 10000) {
    let spd = 1;
    for (const r of ranges) {
      if (i >= r.from && i < r.to) { spd = r.speed; break; }
    }
    nhSteps.push(Math.min(i, maxNh));
    nhSpeeds.push(spd);
    if (i >= maxNh) break;
    let found = false;
    for (const r of ranges) {
      if (i >= r.from && i < r.to) { i += r.step; found = true; break; }
    }
    if (!found) {
      let jumped = false;
      for (let k = 0; k < ranges.length - 1; k++) {
        if (i >= ranges[k].to && i < ranges[k+1].from) { i = ranges[k+1].from; jumped = true; break; }
      }
      if (!jumped) break;
    }
  }
  totalLoops = nhSteps.length;
}

rebuildNhSteps(document.getElementById("stepsInput").value);

const stepsInputEl = document.getElementById("stepsInput");
stepsInputEl.addEventListener("change", function() {
  rebuildNhSteps(this.value);
  loopIndex = 0;
  applyLoopParams();
});
stepsInputEl.addEventListener("keydown", function(e) {
  if (e.key === "Enter") {
    rebuildNhSteps(this.value);
    loopIndex = 0;
    applyLoopParams();
  }
});

function applyLoopParams() {
  const h = nhSteps[loopIndex];
  numHarmonics = h;
  currentSpeed = nhSpeeds[loopIndex] || 1;
  const titleEl = document.getElementById("pageTitle");
  if (titleEl) titleEl.textContent = "Harmonics: " + h;
  document.getElementById("loopVal").textContent = "loop " + loopIndex + "/" + totalLoops + " \u2014 harmonics: " + h;
  traceColorIdx = loopIndex % traceColors.length;
  traceEl.setAttribute("stroke", traceColors[traceColorIdx]);
  const traceMode = getShowMode("selTrace");
  traceVisible = shouldShow(traceMode, loopIndex);
  if (!traceVisible) { traceHistory = []; traceEl.style.display = "none"; }
  contourPath.style.display = shouldShow(getShowMode("selContour"), loopIndex) ? "" : "none";
  fourierGroup.style.display = shouldShow(getShowMode("selCircles"), loopIndex) ? "" : "none";
}

applyLoopParams();

function animate(timestamp) {
  if (lastTime === null) lastTime = timestamp;
  const dt = (timestamp - lastTime) / 1000;
  lastTime = timestamp;
  currentT += dt * currentSpeed * 0.1;
  if (currentT > 1) {
    currentT -= 1;
    traceHistory = [];
    fourierGroup.style.display = "none";
    loopIndex = (loopIndex + 1) % totalLoops;
    applyLoopParams();
  }
  updateDisplay(currentT);
  animId = requestAnimationFrame(animate);
}

document.getElementById("startBtn").addEventListener("click", function() {
  if (animId !== null) return;
  lastTime = null;
  animId = requestAnimationFrame(animate);
});

document.getElementById("stopBtn").addEventListener("click", function() {
  if (animId !== null) {
    cancelAnimationFrame(animId);
    animId = null;
    lastTime = null;
  }
});

// Harmonics table
if (fourier) {
  const tbody = document.getElementById("harmonicsTbody");
  fourier.forEach((c, i) => {
    const tr = document.createElement("tr");
    tr.innerHTML = "<td style=\"padding:2px 8px\">"+i+"</td><td style=\"padding:2px 8px\">"+c.freq+"</td><td style=\"padding:2px 8px\">"+c.re.toFixed(4)+"</td><td style=\"padding:2px 8px\">"+c.im.toFixed(4)+"</td><td style=\"padding:2px 8px\">"+c.r.toFixed(4)+"</td>";
    tbody.appendChild(tr);
  });
}
document.getElementById("harmonicsBtn").addEventListener("click", function() {
  const div = document.getElementById("harmonicsDiv");
  div.style.display = div.style.display === "none" ? "" : "none";
});

// Auto-start
lastTime = null;
animId = requestAnimationFrame(animate);
</script>"#;

pub const EMBED_01: &'static str = r#"
<script>
const points = "#;

pub const EMBED_02: &'static str = r#";
const fourier = "#;

pub const EMBED_03: &'static str = r#";
const dot = document.getElementById("dot");
const svgNS = "http://www.w3.org/2000/svg";
const fourierCircleColors = ["blue", "green", "orange", "purple", "cyan", "magenta"];
const traceColors = "#;

pub const EMBED_04: &'static str = r#";
let traceColorIdx = 0;
const scale = "#;

pub const EMBED_05: &'static str = r#" / 100;
const traceEl = document.getElementById("trace");
"#;

pub const EMBED_06: &'static str = r#"
let traceHistory = [];
const traceMaxLen = Math.round("#;

pub const EMBED_07: &'static str = r#" * points.length);
traceEl.setAttribute("opacity", "#;

pub const EMBED_08: &'static str = r#");
traceEl.setAttribute("stroke-width", "#;

pub const EMBED_09: &'static str = r#" * scale);
document.getElementById("contour-path").setAttribute("stroke-width", "#;

pub const EMBED_10: &'static str = r#" * scale);

function evalFourier(t) {
  if (!fourier) return null;
  const numH = getNumHarmonics();
  let cx = 0, cy = 0;
  for (let k = 0; k < numH; k++) {
    const c = fourier[k];
    const theta = 2 * Math.PI * c.freq * t;
    cx += c.re * Math.cos(theta) - c.im * Math.sin(theta);
    cy += c.im * Math.cos(theta) + c.re * Math.sin(theta);
  }
  return [cx, cy];
}

function updateTrace(t) {
  if (!traceVisible || !fourier) {
    traceEl.style.display = "none";
    return;
  }
  const pt = evalFourier(t);
  if (!pt) return;
  traceHistory.push(pt);
  if (traceHistory.length > traceMaxLen) {
    traceHistory = traceHistory.slice(traceHistory.length - traceMaxLen);
  }
  traceEl.setAttribute("points", traceHistory.map(p => p[0] + "," + p[1]).join(" "));
  traceEl.style.display = "";
}

function interp(t) {
  const n = points.length;
  if (n === 0) return [0, 0];
  if (n === 1) return points[0];
  const scaled = t * (n - 1);
  const i = Math.min(Math.floor(scaled), n - 2);
  const frac = scaled - i;
  return [
    points[i][0] * (1 - frac) + points[i + 1][0] * frac,
    points[i][1] * (1 - frac) + points[i + 1][1] * frac
  ];
}

function initFourier() {
  if (!fourier) return;
  const g = document.getElementById("fourier-group");

  for (let k = 0; k < fourier.length; k++) {
    const color = fourierCircleColors[k % fourierCircleColors.length];

    const circle = document.createElementNS(svgNS, "circle");
    circle.id = "fourier-circle-" + k;
    circle.setAttribute("fill", "none");
    circle.setAttribute("stroke", color);
    circle.setAttribute("stroke-width", 0.3 * scale);
    circle.setAttribute("stroke-dasharray", scale + "," + scale);
    circle.setAttribute("r", fourier[k].r);
    g.appendChild(circle);

    const line = document.createElementNS(svgNS, "line");
    line.id = "fourier-line-" + k;
    line.setAttribute("stroke", color);
    line.setAttribute("stroke-width", 0.3 * scale);
    g.appendChild(line);

    const fdot = document.createElementNS(svgNS, "circle");
    fdot.id = "fourier-dot-" + k;
    fdot.setAttribute("r", 0.8 * scale);
    fdot.setAttribute("fill", color);
    g.appendChild(fdot);
  }
}

let numHarmonics = 2;
function getNumHarmonics() {
  if (!fourier) return 0;
  return Math.max(1, Math.min(numHarmonics, fourier.length));
}

function updateFourier(t) {
  if (!fourier) return;
  const numH = getNumHarmonics();
  let cx = 0, cy = 0;
  let firstDotX = 0, firstDotY = 0;

  for (let k = 0; k < fourier.length; k++) {
    const circle = document.getElementById("fourier-circle-" + k);
    const line = document.getElementById("fourier-line-" + k);
    const fdot = document.getElementById("fourier-dot-" + k);

    if (k >= numH) {
      circle.style.display = "none";
      line.style.display = "none";
      fdot.style.display = "none";
      continue;
    }

    circle.style.display = "";
    line.style.display = "";
    fdot.style.display = "";

    const c = fourier[k];
    const theta = 2 * Math.PI * c.freq * t;
    const dx = c.re * Math.cos(theta) - c.im * Math.sin(theta);
    const dy = c.im * Math.cos(theta) + c.re * Math.sin(theta);
    const nx = cx + dx;
    const ny = cy + dy;

    circle.setAttribute("cx", cx);
    circle.setAttribute("cy", cy);

    line.setAttribute("x1", cx);
    line.setAttribute("y1", cy);
    line.setAttribute("x2", nx);
    line.setAttribute("y2", ny);

    fdot.setAttribute("cx", nx);
    fdot.setAttribute("cy", ny);

    if (k === 0) { firstDotX = nx; firstDotY = ny; }
    cx = nx;
    cy = ny;
  }
  if ("#;

pub const EMBED_11: &'static str = r#") {
    const nhLabel = document.getElementById("nh-label");
    nhLabel.setAttribute("x", firstDotX + 2 * scale);
    nhLabel.setAttribute("y", firstDotY);
    nhLabel.textContent = numH;
  }
}

initFourier();
updateFourier(0);
"#;

pub const EMBED_12: &'static str = r#"
"#;

pub const EMBED_13: &'static str = r#"

const sparkRaysG = document.getElementById("spark-rays");
const sparkParticlesG = document.getElementById("spark-particles");
const sparkScale = "#;

pub const EMBED_14: &'static str = r#" / 100;
const NUM_RAYS = 14;
const NUM_PARTICLES = 8;
const sparkRayEls = [];
const sparkParticleEls = [];
for (let i = 0; i < NUM_RAYS; i++) {
  const line = document.createElementNS(svgNS, "line");
  line.setAttribute("stroke-linecap", "round");
  sparkRaysG.appendChild(line);
  sparkRayEls.push(line);
}
for (let i = 0; i < NUM_PARTICLES; i++) {
  const c = document.createElementNS(svgNS, "circle");
  c.setAttribute("fill", "gold");
  sparkParticlesG.appendChild(c);
  sparkParticleEls.push(c);
}
function updateSpark() {
  for (let i = 0; i < NUM_RAYS; i++) {
    const angle = Math.random() * Math.PI * 2;
    const len = (1.0 + Math.random() * 4.0) * sparkScale;
    const inner = (0.1 + Math.random() * 0.3) * sparkScale;
    const cos = Math.cos(angle), sin = Math.sin(angle);
    sparkRayEls[i].setAttribute("x1", cos * inner);
    sparkRayEls[i].setAttribute("y1", sin * inner);
    sparkRayEls[i].setAttribute("x2", cos * len);
    sparkRayEls[i].setAttribute("y2", sin * len);
    const bright = Math.random() > 0.4;
    sparkRayEls[i].setAttribute("stroke", bright ? "gold" : "darkorange");
    sparkRayEls[i].setAttribute("stroke-width", (0.15 + Math.random() * 0.25) * sparkScale);
    sparkRayEls[i].setAttribute("opacity", 0.3 + Math.random() * 0.6);
  }
  for (let i = 0; i < NUM_PARTICLES; i++) {
    const angle = Math.random() * Math.PI * 2;
    const dist = (1.0 + Math.random() * 3.0) * sparkScale;
    sparkParticleEls[i].setAttribute("cx", Math.cos(angle) * dist);
    sparkParticleEls[i].setAttribute("cy", Math.sin(angle) * dist);
    sparkParticleEls[i].setAttribute("r", (0.05 + Math.random() * 0.15) * sparkScale);
    sparkParticleEls[i].setAttribute("opacity", 0.3 + Math.random() * 0.5);
  }
}

let dotHidden = "#;

pub const EMBED_15: &'static str = r#";

function updateDisplay(t) {
  updateFourier(t);
  updateTrace(t);
  updateSpark();
  const pt = evalFourier(t);
  if (pt) {
    dot.setAttribute("transform", "translate(" + pt[0] + "," + pt[1] + ")");
  }
  if (!dotHidden) dot.style.display = "";
}

let animId = null;
let lastTime = null;
let currentT = 0;
let loopIndex = 0;

const maxHarmonics = "#;

pub const EMBED_16: &'static str = r#";
const maxNh = fourier ? Math.min(maxHarmonics, fourier.length) : 1;
const nhSteps = [];
const nhSpeeds = [];
{
  const ranges = "#;

pub const EMBED_17: &'static str = r#";
  let i = ranges.length > 0 ? ranges[0][0] : 1;
  while (nhSteps.length < 10000) {
    let spd = 1;
    for (const r of ranges) {
      if (i >= r[0] && i < r[2]) { spd = r[3]; break; }
    }
    nhSteps.push(Math.min(i, maxNh));
    nhSpeeds.push(spd);
    if (i >= maxNh) break;
    let found = false;
    for (const r of ranges) {
      if (i >= r[0] && i < r[2]) { i += r[1]; found = true; break; }
    }
    if (!found) {
      let jumped = false;
      for (let k = 0; k < ranges.length - 1; k++) {
        if (i >= ranges[k][2] && i < ranges[k+1][0]) { i = ranges[k+1][0]; jumped = true; break; }
      }
      if (!jumped) break;
    }
  }
}
const totalLoops = nhSteps.length;
let currentSpeed = nhSpeeds.length > 0 ? nhSpeeds[0] : 1;

function applyLoopParams() {
  const h = nhSteps[loopIndex];
  numHarmonics = h;
  currentSpeed = nhSpeeds[loopIndex] || 1;
  traceColorIdx = loopIndex % traceColors.length;
  traceEl.setAttribute("stroke", traceColors[traceColorIdx]);
"#;

pub const EMBED_18: &'static str = r#"
"#;

pub const EMBED_19: &'static str = r#"
"#;

pub const EMBED_20: &'static str = r#"
}

applyLoopParams();

function animate(timestamp) {
  if (lastTime === null) lastTime = timestamp;
  const dt = (timestamp - lastTime) / 1000;
  lastTime = timestamp;
  currentT += dt * currentSpeed * 0.1;
  if (currentT > 1) {
    currentT -= 1;
    traceHistory = [];
    document.getElementById("fourier-group").style.display = "none";
    loopIndex = (loopIndex + 1) % totalLoops;
    applyLoopParams();
  }
  updateDisplay(currentT);
  animId = requestAnimationFrame(animate);
}

lastTime = null;
animId = requestAnimationFrame(animate);
</script>"#;

pub const PAGE_01: &'static str = r#"<html>
<head><title id="pageTitle">Harmonics: 2</title></head>
<body style="display:flex;flex-direction:column;align-items:center;justify-content:center;margin:0;min-height:100vh;background:black;color:white">
"#;

pub const PAGE_02: &'static str = r#"
</body>
</html>"#;

pub const FRAGMENT_01: &'static str = r#"<div style="display:flex;flex-direction:column;align-items:center;background:black;color:white">
"#;

pub const FRAGMENT_02: &'static str = r#"
</div>"#;

} // verus!
